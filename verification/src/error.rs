//! The error vocabulary: operating-system failures and the records reported
//! to callers.

use vstd::prelude::*;

verus! {

/// Coarse classification of a failed system call.
#[derive(Debug, Clone, Copy, PartialEq, Eq, Structural)]
pub enum OsFailureKind {
    /// The destination already exists.
    AlreadyExists,
    /// The source was not found.
    NotFound,
    /// A path was not acceptable as input.
    InvalidInput,
    /// The caller lacks permission.
    PermissionDenied,
    /// The platform or the filesystem cannot clone.
    Unsupported,
    /// Any other failure.
    Other,
}

/// The structured `(code, errno)` pair of a failure kind, if it has one.
///
/// The number is the one Node.js lists under `os.constants.errno` for the code.
pub open spec fn code_of(kind: OsFailureKind) -> Option<(Seq<char>, i16)> {
    match kind {
        OsFailureKind::AlreadyExists => Some(("EEXIST"@, 17i16)),
        OsFailureKind::NotFound | OsFailureKind::InvalidInput => Some(("ENOENT"@, 2i16)),
        OsFailureKind::PermissionDenied => Some(("EPERM"@, 1i16)),
        OsFailureKind::Unsupported | OsFailureKind::Other => None,
    }
}

/// Infers the error code of a failure kind and its number.
pub fn error_code(kind: OsFailureKind) -> (found: Option<(&'static str, i16)>)
    ensures
        match found {
            Some((code, errno)) => code_of(kind) == Some((code@, errno)),
            None => code_of(kind) is None,
        },
{
    match kind {
        OsFailureKind::AlreadyExists => Some(("EEXIST", 17)),
        OsFailureKind::NotFound | OsFailureKind::InvalidInput => Some(("ENOENT", 2)),
        OsFailureKind::PermissionDenied => Some(("EPERM", 1)),
        OsFailureKind::Unsupported | OsFailureKind::Other => None,
    }
}

/// A failure reported by the operating system, as plain values.
#[derive(Debug, Clone, PartialEq, Eq)]
pub struct OsError {
    /// The category the failure falls under.
    pub kind: OsFailureKind,
    /// The operating system's description of the failure.
    pub description: String,
}

/// `std::io::Error`, carried through as an opaque value.
#[verifier::external_type_specification]
#[verifier::external_body]
pub struct ExIoError(std::io::Error);

/// Calls `std::io::Error::kind` and names the category of the kind it
/// reports. Nothing is claimed of which category comes back.
#[verifier::external_body]
fn io_failure_kind(io_error: &std::io::Error) -> (kind: OsFailureKind) {
    match io_error.kind() {
        std::io::ErrorKind::AlreadyExists => OsFailureKind::AlreadyExists,
        std::io::ErrorKind::NotFound => OsFailureKind::NotFound,
        std::io::ErrorKind::InvalidInput => OsFailureKind::InvalidInput,
        std::io::ErrorKind::PermissionDenied => OsFailureKind::PermissionDenied,
        std::io::ErrorKind::Unsupported => OsFailureKind::Unsupported,
        _ => OsFailureKind::Other,
    }
}

/// `os_error` is a reading of `io_error`: its description is the text that
/// the `Display` implementation of `io_error` writes. The category is left
/// open.
pub open spec fn reads_as(io_error: std::io::Error, os_error: OsError) -> bool {
    vstd::string::to_string_from_display_ensures::<std::io::Error>(
        &io_error,
        os_error.description,
    )
}

impl OsError {
    /// Reads the category and the description off a `std::io::Error`.
    ///
    /// Both come from the standard library; [`ReflinkError::translate`] says
    /// what becomes of each possible value.
    pub fn from_io(io_error: &std::io::Error) -> (os_error: OsError)
        ensures
            reads_as(*io_error, os_error),
    {
        OsError { kind: io_failure_kind(io_error), description: io_error.to_string() }
    }
}

/// What an [`OsError`] stands for.
pub struct OsFailure {
    pub kind: OsFailureKind,
    pub description: Seq<char>,
}

impl View for OsError {
    type V = OsFailure;

    open spec fn view(&self) -> OsFailure {
        OsFailure { kind: self.kind, description: self.description@ }
    }
}

/// Contains all properties to construct an actual error.
#[derive(Debug, Clone, PartialEq, Eq)]
pub struct ReflinkError {
    pub message: String,
    pub path: String,
    pub dest: String,
    pub code: Option<&'static str>,
    pub errno: Option<i16>,
}

/// What a [`ReflinkError`] stands for.
pub struct ErrorRecord {
    pub message: Seq<char>,
    pub path: Seq<char>,
    pub dest: Seq<char>,
    pub code: Option<Seq<char>>,
    pub errno: Option<i16>,
}

impl View for ReflinkError {
    type V = ErrorRecord;

    open spec fn view(&self) -> ErrorRecord {
        ErrorRecord {
            message: self.message@,
            path: self.path@,
            dest: self.dest@,
            code: match self.code {
                Some(code) => Some(code@),
                None => None,
            },
            errno: self.errno,
        }
    }
}

impl ErrorRecord {
    /// The structured part is either absent as a whole or one row of the
    /// table of [`code_of`].
    pub open spec fn well_formed(self) -> bool {
        match (self.code, self.errno) {
            (Some(code), Some(errno)) => exists|kind: OsFailureKind|
                #[trigger] code_of(kind) == Some((code, errno)),
            (None, None) => true,
            _ => false,
        }
    }
}

/// The message of a record: what went wrong, then the two paths.
pub open spec fn message_of(detail: Seq<char>, src: Seq<char>, dst: Seq<char>) -> Seq<char> {
    detail + ", reflink '"@ + src + "' -> '"@ + dst + "'"@
}

/// The record of an operating-system failure for one pair of paths.
pub open spec fn translation(os_error: OsFailure, src: Seq<char>, dst: Seq<char>) -> ErrorRecord {
    ErrorRecord {
        message: message_of(os_error.description, src, dst),
        path: src,
        dest: dst,
        code: match code_of(os_error.kind) {
            Some(pair) => Some(pair.0),
            None => None,
        },
        errno: match code_of(os_error.kind) {
            Some(pair) => Some(pair.1),
            None => None,
        },
    }
}

/// The record of a failure that the operating system's table does not cover:
/// a message and the paths, without code or number.
pub open spec fn unstructured(detail: Seq<char>, src: Seq<char>, dst: Seq<char>) -> ErrorRecord {
    ErrorRecord {
        message: message_of(detail, src, dst),
        path: src,
        dest: dst,
        code: None,
        errno: None,
    }
}

/// Writes the message of a record.
fn compose_message(detail: &str, src: &str, dst: &str) -> (message: String)
    ensures
        message@ == message_of(detail@, src@, dst@),
{
    let mut message = String::new();
    message.append(detail);
    message.append(", reflink '");
    message.append(src);
    message.append("' -> '");
    message.append(dst);
    message.append("'");
    assert(message@ =~= message_of(detail@, src@, dst@));
    message
}

impl ReflinkError {
    /// Builds the record of `io_error` for the pair `(path, dest)`.
    ///
    /// The record is the translation of whatever category and description
    /// the standard library reports for `io_error`.
    pub fn new(io_error: std::io::Error, path: String, dest: String) -> (record: ReflinkError)
        ensures
            exists|os_error: OsError|
                reads_as(io_error, os_error) && record@ == #[trigger] translation(
                    os_error@,
                    path@,
                    dest@,
                ),
            record@.path == path@,
            record@.dest == dest@,
            record@.well_formed(),
    {
        let os_error = OsError::from_io(&io_error);
        ReflinkError::translate(&os_error, path, dest)
    }

    /// Translates an operating-system failure for the pair `(src, dst)`.
    ///
    /// The message reads `<description>, reflink '<src>' -> '<dst>'`; code and
    /// number come from the table of [`error_code`].
    pub fn translate(os_error: &OsError, src: String, dst: String) -> (record: ReflinkError)
        ensures
            record@ == translation(os_error@, src@, dst@),
            record@.well_formed(),
    {
        let message = compose_message(os_error.description.as_str(), src.as_str(), dst.as_str());
        let (code, errno) = match error_code(os_error.kind) {
            Some((code, errno)) => (Some(code), Some(errno)),
            None => (None, None),
        };
        ReflinkError { message, path: src, dest: dst, code, errno }
    }

    /// A record for a failure that does not come from the operating system's
    /// error space: `detail` and the paths, without code or number.
    pub fn synthesized(detail: &str, src: String, dst: String) -> (record: ReflinkError)
        ensures
            record@ == unstructured(detail@, src@, dst@),
            record@.well_formed(),
    {
        let message = compose_message(detail, src.as_str(), dst.as_str());
        ReflinkError { message, path: src, dest: dst, code: None, errno: None }
    }
}

} // verus!
