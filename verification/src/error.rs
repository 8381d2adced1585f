//! The failures an operation on a socket handle can report.

use vstd::prelude::*;

verus! {

/// Why an operation failed.
#[derive(Clone, Copy, Debug, PartialEq, Eq, Structural)]
pub enum SocketError {
    /// The operating system refused or failed the request; holds the native
    /// error code as it was reported.
    Os(i32),
    /// The handle no longer owns a native socket.
    Detached,
    /// The request itself succeeded, but the step that makes its result
    /// usable on a completion-port backend failed with this native code.
    Finalize(i32),
}

/// The outcome of an operation together with the resource that was moved
/// into it. The resource comes back whether the operation succeeded or not.
#[derive(Debug)]
pub struct BufResult<T, B>(pub Result<T, SocketError>, pub B);

/// Surfaces a native outcome as this layer's outcome: success is kept, a
/// native error code becomes [`SocketError::Os`].
pub fn from_os<T>(outcome: Result<T, i32>) -> (r: Result<T, SocketError>)
    ensures
        r == os_result(outcome),
{
    match outcome {
        Ok(v) => Ok(v),
        Err(code) => Err(SocketError::Os(code)),
    }
}

/// A native outcome as this layer reports it.
pub open spec fn os_result<T>(outcome: Result<T, i32>) -> Result<T, SocketError> {
    match outcome {
        Ok(v) => Ok(v),
        Err(code) => Err(SocketError::Os(code)),
    }
}

} // verus!
