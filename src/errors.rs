//! What a failed step means for the run, and how a failure is reported.
use vstd::prelude::*;
use vstd::string::*;

verus! {

/// The kinds of failure that the installer tells apart.
#[derive(Clone, Copy, Debug, PartialEq, Eq, Structural)]
pub enum ErrorKind {
    NotFound,
    PermissionDenied,
    AlreadyExists,
    UnexpectedEof,
    Other,
}

/// The outcome of removing something that may already be gone.
pub open spec fn missing_outcome(failure: Option<ErrorKind>) -> Result<bool, ErrorKind> {
    match failure {
        None => Ok(true),
        Some(ErrorKind::NotFound) => Ok(false),
        Some(kind) => Err(kind),
    }
}

/// The outcome of removing something that may already be gone: `Ok(true)`
/// when it was removed, `Ok(false)` when it was not present, and any other
/// failure as it is.
pub fn tolerate_missing(failure: Option<ErrorKind>) -> (r: Result<bool, ErrorKind>)
    ensures
        r == missing_outcome(failure),
{
    match failure {
        None => Ok(true),
        Some(ErrorKind::NotFound) => Ok(false),
        Some(kind) => Err(kind),
    }
}

/// The outcome of creating a directory that may already exist: `Ok(true)`
/// when it was created, `Ok(false)` when it was there, and any other failure
/// as it is.
pub fn tolerate_existing(failure: Option<ErrorKind>) -> (r: Result<bool, ErrorKind>)
    ensures
        failure is None ==> r == Ok::<bool, ErrorKind>(true),
        failure == Some(ErrorKind::AlreadyExists) ==> r == Ok::<bool, ErrorKind>(false),
        failure is Some && failure != Some(ErrorKind::AlreadyExists) ==> r == Err::<
            bool,
            ErrorKind,
        >(failure->0),
{
    match failure {
        None => Ok(true),
        Some(ErrorKind::AlreadyExists) => Ok(false),
        Some(kind) => Err(kind),
    }
}

/// The hint given when a step was refused for want of permissions.
pub const PERMISSION_HINT: &'static str = "you may need to run this as root/admin";

/// The lines that report a failure: `[ERROR] <message>`, then the hint when
/// permission was denied.
pub fn error_report(kind: ErrorKind, message: &str) -> (r: Vec<String>)
    ensures
        r@.len() == if kind == ErrorKind::PermissionDenied {
            2int
        } else {
            1int
        },
        r@[0]@ == "[ERROR] "@ + message@,
        kind == ErrorKind::PermissionDenied ==> r@[1]@ == PERMISSION_HINT@,
{
    let mut first = String::from_str("[ERROR] ");
    first.append(message);
    let mut lines = Vec::new();
    lines.push(first);
    if kind == ErrorKind::PermissionDenied {
        lines.push(String::from_str(PERMISSION_HINT));
    }
    lines
}

} // verus!
