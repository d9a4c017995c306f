//! Copy-on-write file cloning: the decisions of the reflink engine.
//!
//! The crate holds everything the engine decides: how an operating-system
//! failure becomes a stable error record, when two files count as identical,
//! how the lineage attribute grows, and the bounded retry state machine that
//! ties these together. It performs no I/O itself. A driver performs each
//! [`engine::CloneAction`] the machine asks for and reports what happened as a
//! [`engine::CloneEvent`]; [`runs`] states what holds of every such exchange.

pub mod engine;
pub mod error;
pub mod integrity;
pub mod lineage;
pub mod runs;
