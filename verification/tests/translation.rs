use reflink_core::error::{error_code, OsError, OsFailureKind, ReflinkError};
use std::io::{Error, ErrorKind};

fn os_error(kind: OsFailureKind, description: &str) -> OsError {
    OsError { kind, description: description.to_string() }
}

#[test]
fn error_code_knows_the_three_structured_kinds() {
    assert_eq!(error_code(OsFailureKind::AlreadyExists), Some(("EEXIST", 17)));
    assert_eq!(error_code(OsFailureKind::NotFound), Some(("ENOENT", 2)));
    assert_eq!(error_code(OsFailureKind::InvalidInput), Some(("ENOENT", 2)));
    assert_eq!(error_code(OsFailureKind::PermissionDenied), Some(("EPERM", 1)));
}

#[test]
fn error_code_leaves_the_rest_unstructured() {
    assert_eq!(error_code(OsFailureKind::Unsupported), None);
    assert_eq!(error_code(OsFailureKind::Other), None);
}

#[test]
fn translate_existing_destination() {
    let record = ReflinkError::translate(
        &os_error(OsFailureKind::AlreadyExists, "File exists (os error 17)"),
        "a.txt".to_string(),
        "b.txt".to_string(),
    );
    assert_eq!(record.message, "File exists (os error 17), reflink 'a.txt' -> 'b.txt'");
    assert_eq!(record.path, "a.txt");
    assert_eq!(record.dest, "b.txt");
    assert_eq!(record.code, Some("EEXIST"));
    assert_eq!(record.errno, Some(17));
}

#[test]
fn translate_missing_source() {
    let record = ReflinkError::translate(
        &os_error(OsFailureKind::NotFound, "No such file or directory (os error 2)"),
        "missing".to_string(),
        "copy".to_string(),
    );
    assert_eq!(
        record.message,
        "No such file or directory (os error 2), reflink 'missing' -> 'copy'"
    );
    assert_eq!(record.code, Some("ENOENT"));
    assert_eq!(record.errno, Some(2));
}

#[test]
fn translate_invalid_input_reads_as_missing() {
    let record = ReflinkError::translate(
        &os_error(OsFailureKind::InvalidInput, "invalid input"),
        "".to_string(),
        "copy".to_string(),
    );
    assert_eq!(record.message, "invalid input, reflink '' -> 'copy'");
    assert_eq!(record.code, Some("ENOENT"));
    assert_eq!(record.errno, Some(2));
}

#[test]
fn translate_permission_denied() {
    let record = ReflinkError::translate(
        &os_error(OsFailureKind::PermissionDenied, "Permission denied (os error 13)"),
        "a".to_string(),
        "b".to_string(),
    );
    assert_eq!(record.code, Some("EPERM"));
    assert_eq!(record.errno, Some(1));
}

#[test]
fn translate_unmapped_kinds_carry_only_a_message() {
    for kind in [OsFailureKind::Unsupported, OsFailureKind::Other] {
        let record = ReflinkError::translate(
            &os_error(kind, "Operation not supported (os error 95)"),
            "a".to_string(),
            "b".to_string(),
        );
        assert_eq!(record.message, "Operation not supported (os error 95), reflink 'a' -> 'b'");
        assert_eq!(record.path, "a");
        assert_eq!(record.dest, "b");
        assert_eq!(record.code, None);
        assert_eq!(record.errno, None);
    }
}

#[test]
fn translate_keeps_paths_as_given() {
    let record = ReflinkError::translate(
        &os_error(OsFailureKind::Other, "boom"),
        "./dir/../it's here".to_string(),
        "C:\\target dir\\x".to_string(),
    );
    assert_eq!(record.path, "./dir/../it's here");
    assert_eq!(record.dest, "C:\\target dir\\x");
    assert_eq!(record.message, "boom, reflink './dir/../it's here' -> 'C:\\target dir\\x'");
}

#[test]
fn synthesized_record_has_no_code() {
    let record = ReflinkError::synthesized("gave up", "a".to_string(), "b".to_string());
    assert_eq!(record.message, "gave up, reflink 'a' -> 'b'");
    assert_eq!(record.path, "a");
    assert_eq!(record.dest, "b");
    assert_eq!(record.code, None);
    assert_eq!(record.errno, None);
}

#[test]
fn from_io_reads_kind_and_description() {
    let io_error = Error::new(ErrorKind::AlreadyExists, "it is there");
    let read = OsError::from_io(&io_error);
    assert_eq!(read.kind, OsFailureKind::AlreadyExists);
    assert_eq!(read.description, "it is there");
}

#[test]
fn from_io_tells_the_kinds_apart() {
    let cases = [
        (ErrorKind::AlreadyExists, OsFailureKind::AlreadyExists),
        (ErrorKind::NotFound, OsFailureKind::NotFound),
        (ErrorKind::InvalidInput, OsFailureKind::InvalidInput),
        (ErrorKind::PermissionDenied, OsFailureKind::PermissionDenied),
        (ErrorKind::Unsupported, OsFailureKind::Unsupported),
        (ErrorKind::Other, OsFailureKind::Other),
        (ErrorKind::TimedOut, OsFailureKind::Other),
        (ErrorKind::UnexpectedEof, OsFailureKind::Other),
    ];
    for (kind, expected) in cases {
        let io_error = Error::from(kind);
        let read = OsError::from_io(&io_error);
        assert_eq!(read.kind, expected);
        assert_eq!(read.description, io_error.to_string());
    }
}

#[test]
fn new_from_existing_destination() {
    let shown = Error::from(ErrorKind::AlreadyExists).to_string();
    let record =
        ReflinkError::new(Error::from(ErrorKind::AlreadyExists), "src".to_string(), "dst".to_string());
    assert_eq!(record.message, format!("{shown}, reflink 'src' -> 'dst'"));
    assert_eq!(record.path, "src");
    assert_eq!(record.dest, "dst");
    assert_eq!(record.code, Some("EEXIST"));
    assert_eq!(record.errno, Some(17));
}

#[test]
fn new_from_missing_source() {
    let record =
        ReflinkError::new(Error::from(ErrorKind::NotFound), "src".to_string(), "dst".to_string());
    assert_eq!(record.code, Some("ENOENT"));
    assert_eq!(record.errno, Some(2));
}

#[test]
fn new_from_invalid_input() {
    let record = ReflinkError::new(
        Error::new(ErrorKind::InvalidInput, "bad path"),
        "src".to_string(),
        "dst".to_string(),
    );
    assert_eq!(record.message, "bad path, reflink 'src' -> 'dst'");
    assert_eq!(record.code, Some("ENOENT"));
    assert_eq!(record.errno, Some(2));
}

#[test]
fn new_from_permission_denied() {
    let record = ReflinkError::new(
        Error::from(ErrorKind::PermissionDenied),
        "src".to_string(),
        "dst".to_string(),
    );
    assert_eq!(record.code, Some("EPERM"));
    assert_eq!(record.errno, Some(1));
}

#[test]
fn new_from_anything_else() {
    let record = ReflinkError::new(
        Error::new(ErrorKind::Other, "cross-device link"),
        "src".to_string(),
        "dst".to_string(),
    );
    assert_eq!(record.message, "cross-device link, reflink 'src' -> 'dst'");
    assert_eq!(record.code, None);
    assert_eq!(record.errno, None);
}

#[test]
fn new_from_unsupported_platform() {
    let record =
        ReflinkError::new(Error::from(ErrorKind::Unsupported), "src".to_string(), "dst".to_string());
    assert_eq!(record.code, None);
    assert_eq!(record.errno, None);
    assert_eq!(record.path, "src");
    assert_eq!(record.dest, "dst");
}
