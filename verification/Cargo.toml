[package]
name = "reflink_core"
version = "0.1.0"
edition = "2021"
publish = false

[dependencies]
copy_on_write = "*"
napi = { version = "2", default-features = false, features = ["napi4"] }
napi-derive = "2"
pipe-trait = "*"
xattr = "1"
