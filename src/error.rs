use vstd::prelude::*;
use vstd::string::*;

verus! {

/// The mathematical content of a `LauncherError`: each text field as a
/// sequence of characters.
pub enum ErrorModel {
    FileReadFailed { path: Seq<char>, details: Seq<char> },
    FileWriteFailed { path: Seq<char>, details: Seq<char> },
    ClipboardFailed,
}

impl ErrorModel {
    /// The one human-readable message of each kind of error.
    pub open spec fn rendered(self) -> Seq<char> {
        match self {
            ErrorModel::FileReadFailed { path, details } => "Failed to read file "@ + path
                + ": "@ + details,
            ErrorModel::FileWriteFailed { path, details } => "Failed to write file "@ + path
                + ": "@ + details,
            ErrorModel::ClipboardFailed => "Clipboard operation failed"@,
        }
    }
}

/// The closed set of failures that the command layer reports.
#[derive(Debug)]
pub enum LauncherError {
    FileReadFailed { path: String, details: String },
    FileWriteFailed { path: String, details: String },
    ClipboardFailed,
}

impl View for LauncherError {
    type V = ErrorModel;

    open spec fn view(&self) -> ErrorModel {
        match self {
            LauncherError::FileReadFailed { path, details } => ErrorModel::FileReadFailed {
                path: path@,
                details: details@,
            },
            LauncherError::FileWriteFailed { path, details } => ErrorModel::FileWriteFailed {
                path: path@,
                details: details@,
            },
            LauncherError::ClipboardFailed => ErrorModel::ClipboardFailed,
        }
    }
}

/// `lead`, then `path`, then a colon and a space, then `details`.
fn path_message(lead: &str, path: &String, details: &String) -> (r: String)
    ensures
        r@ == lead@ + path@ + ": "@ + details@,
{
    let mut r = String::from_str(lead);
    r.append(path.as_str());
    r.append(": ");
    r.append(details.as_str());
    r
}

impl LauncherError {
    /// The message of this error, as it crosses the boundary to the front end.
    pub fn render(&self) -> (r: String)
        ensures
            r@ == self@.rendered(),
    {
        match self {
            LauncherError::FileReadFailed { path, details } => path_message(
                "Failed to read file ",
                path,
                details,
            ),
            LauncherError::FileWriteFailed { path, details } => path_message(
                "Failed to write file ",
                path,
                details,
            ),
            LauncherError::ClipboardFailed => String::from_str("Clipboard operation failed"),
        }
    }
}

/// The categories of a host I/O failure that canonicalization tells apart.
#[derive(Debug, Clone, Copy, PartialEq, Eq, Structural)]
pub enum HostErrorKind {
    NotFound,
    PermissionDenied,
    Other,
}

/// A host I/O failure: its category and the host's own description of it.
#[derive(Debug)]
pub struct HostError {
    pub kind: HostErrorKind,
    pub message: String,
}

/// The error that a host failure of category `kind`, described by `message`,
/// becomes. The originating path is not known at this point, so it is the
/// placeholder `unknown`.
pub open spec fn canonical(kind: HostErrorKind, message: Seq<char>) -> ErrorModel {
    match kind {
        HostErrorKind::NotFound => ErrorModel::FileReadFailed { path: "unknown"@, details: message },
        HostErrorKind::PermissionDenied => ErrorModel::FileReadFailed {
            path: "unknown"@,
            details: "Permission denied: "@ + message,
        },
        HostErrorKind::Other => ErrorModel::FileReadFailed { path: "unknown"@, details: message },
    }
}

/// Every host failure becomes a file-read error whose details hold the host's
/// description unchanged, as a contiguous part.
pub proof fn canonical_keeps_message(kind: HostErrorKind, message: Seq<char>)
    ensures
        canonical(kind, message) is FileReadFailed,
        exists|i: int|
            0 <= i && i + message.len() <= canonical(kind, message)->FileReadFailed_details.len()
                && #[trigger] canonical(kind, message)->FileReadFailed_details.subrange(
                i,
                i + message.len(),
            ) == message,
{
    let details = canonical(kind, message)->FileReadFailed_details;
    let i: int = details.len() - message.len();
    assert(details.subrange(i, i + message.len()) =~= message);
}

/// Two errors with the same content render to the same message.
pub proof fn render_is_deterministic(a: LauncherError, b: LauncherError)
    requires
        a@ == b@,
    ensures
        a@.rendered() == b@.rendered(),
{
}

#[verifier::external_type_specification]
#[verifier::external_body]
pub struct ExIoError(std::io::Error);

/// Relies on std::io::Error::kind: sorts the category of the failure into
/// the three that canonicalization tells apart.
#[verifier::external_body]
fn io_error_kind(err: &std::io::Error) -> (r: HostErrorKind) {
    match err.kind() {
        std::io::ErrorKind::NotFound => HostErrorKind::NotFound,
        std::io::ErrorKind::PermissionDenied => HostErrorKind::PermissionDenied,
        _ => HostErrorKind::Other,
    }
}

/// Relies on the Display of std::io::Error: the host's description of the
/// failure.
#[verifier::external_body]
fn io_error_text(err: &std::io::Error) -> (r: String) {
    err.to_string()
}

impl LauncherError {
    /// Canonicalization: turns a host failure into a file-read error. It never
    /// fails, and keeps the host's description in `details`.
    pub fn from_host_error(err: HostError) -> (r: LauncherError)
        ensures
            r@ == canonical(err.kind, err.message@),
    {
        let details = match err.kind {
            HostErrorKind::PermissionDenied => {
                let mut d = String::from_str("Permission denied: ");
                d.append(err.message.as_str());
                d
            },
            _ => err.message,
        };
        LauncherError::FileReadFailed { path: String::from_str("unknown"), details }
    }
}

impl From<std::io::Error> for LauncherError {
    /// Canonicalization of a failure that std reports.
    fn from(err: std::io::Error) -> (r: LauncherError)
        ensures
            exists|kind: HostErrorKind, message: Seq<char>| r@ == canonical(kind, message),
    {
        let kind = io_error_kind(&err);
        let message = io_error_text(&err);
        LauncherError::from_host_error(HostError { kind, message })
    }
}

impl vstd::std_specs::convert::FromSpecImpl<std::io::Error> for LauncherError {
    open spec fn obeys_from_spec() -> bool {
        false
    }

    open spec fn from_spec(v: std::io::Error) -> LauncherError {
        arbitrary()
    }
}

} // verus!
