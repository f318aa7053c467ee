//! What an operation reports when it fails.

use vstd::prelude::*;

verus! {

/// Failure of a lock operation.
#[derive(Clone, Copy, Debug, PartialEq, Eq, Structural)]
pub enum LockError {
    /// The lock is held elsewhere and the request was not to wait. Every
    /// platform's own way of saying so ends up as this one value.
    Contended,
    /// Any other failure, with the operating system's code as it was given.
    Os(i32),
}

/// Failure of an operation other than locking.
#[derive(Clone, Copy, Debug, PartialEq, Eq, Structural)]
pub enum IoError {
    /// The path has no form in the platform's own encoding.
    InvalidInput,
    /// A failure of the operating system, with its code as it was given.
    Os(i32),
}

/// The error that stands for a lock held elsewhere.
pub fn lock_error() -> (e: LockError)
    ensures
        e == LockError::Contended,
{
    LockError::Contended
}

} // verus!
