//! The errors that the window's operations return.

use vstd::prelude::*;

verus! {

/// The operation is not supported by this backend.
#[derive(Debug, Clone, Copy, PartialEq, Eq, Hash, Structural)]
pub struct NotSupportedError;

impl NotSupportedError {
    /// The error for an unsupported operation.
    pub fn new() -> (e: NotSupportedError)
        ensures
            e == NotSupportedError,
    {
        NotSupportedError
    }
}

/// An error that the window system reported, with its message.
#[derive(Debug, Clone)]
pub struct OsError(pub String);

/// The error of an operation that asks something of the window system.
#[derive(Debug)]
pub enum ExternalError {
    /// The operation is not supported by this backend.
    NotSupported(NotSupportedError),
    /// The request was ignored.
    Ignored,
    /// The window system reported an error.
    Os(OsError),
}

} // verus!
