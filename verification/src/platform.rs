//! How the completion backends differ, as one table.

use vstd::prelude::*;

verus! {

/// The completion mechanism that drives the sockets.
#[derive(Clone, Copy, Debug, PartialEq, Eq, Structural)]
pub enum Backend {
    /// A kernel submission and completion queue.
    IoUring,
    /// Readiness polling that emulates completions.
    Polling,
    /// Completion ports with overlapped requests.
    CompletionPort,
}

impl Backend {
    /// Whether a fresh native socket has to be switched to non-blocking mode
    /// before this backend can drive it.
    pub open spec fn wants_nonblocking(self) -> bool {
        self is Polling
    }

    /// Whether accept and connect need a context-finalization step after
    /// the raw completion.
    pub open spec fn wants_finalize(self) -> bool {
        self is CompletionPort
    }

    /// Whether accept needs a socket allocated ahead of the request.
    pub open spec fn wants_preallocated_accept(self) -> bool {
        self is CompletionPort
    }

    /// Computes [`Backend::wants_nonblocking`].
    pub fn needs_nonblocking(self) -> (r: bool)
        ensures
            r == self.wants_nonblocking(),
    {
        match self {
            Backend::Polling => true,
            _ => false,
        }
    }

    /// Computes [`Backend::wants_finalize`].
    pub fn needs_finalize(self) -> (r: bool)
        ensures
            r == self.wants_finalize(),
    {
        match self {
            Backend::CompletionPort => true,
            _ => false,
        }
    }

    /// Computes [`Backend::wants_preallocated_accept`].
    pub fn needs_preallocated_accept(self) -> (r: bool)
        ensures
            r == self.wants_preallocated_accept(),
    {
        match self {
            Backend::CompletionPort => true,
            _ => false,
        }
    }
}

} // verus!
