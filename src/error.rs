use vstd::prelude::*;

verus! {

/// The kinds of failure an operation can report.
#[derive(Clone, Copy, Debug, PartialEq, Eq, Structural)]
pub enum ErrorKind {
    /// The operation needs a connection that is absent.
    NotConnected,
    /// A value was requested before it was ever populated.
    NotReady,
    /// The entity's declared capabilities do not permit the operation.
    NotSupported,
    /// The handle was invalidated by a service-changed indication.
    ServiceChanged,
    /// An internal invariant was violated, e.g. an event stream ended early.
    Internal,
    /// An argument is structurally invalid for this backend.
    InvalidParameter,
    /// A failure reported by the platform stack, passed through.
    Platform,
}

/// An error: its kind and, for failures of the platform stack, the native code.
#[derive(Clone, Copy, Debug, PartialEq, Eq, Structural)]
pub struct Error {
    pub kind: ErrorKind,
    pub code: Option<i64>,
}

impl Error {
    /// An error of the given kind without native detail.
    pub fn from_kind(kind: ErrorKind) -> (r: Error)
        ensures
            r.kind == kind,
            r.code.is_none(),
    {
        Error { kind, code: None }
    }

    /// An error of the given kind that keeps the native code, if any.
    pub fn with_code(kind: ErrorKind, code: Option<i64>) -> (r: Error)
        ensures
            r.kind == kind,
            r.code == code,
    {
        Error { kind, code }
    }

    /// A failure of the platform stack with its native code.
    pub fn platform(code: i64) -> (r: Error)
        ensures
            r.kind == ErrorKind::Platform,
            r.code == Some(code),
    {
        Error { kind: ErrorKind::Platform, code: Some(code) }
    }
}

} // verus!
