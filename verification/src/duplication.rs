//! Duplication: a second reference to the same open file.
//!
//! The duplicate is closed when the process executes another program exactly
//! if the original is (on Windows: it is inherited exactly if the original
//! is). So the original is inspected first, and the duplicate made to match.
//! Whether the two share their locks is the platform's rule, not a choice
//! made here.

use vstd::prelude::*;
use crate::error::IoError;

verus! {

/// What comes next in a duplication. `R` is the caller's type of an open
/// file reference.
#[derive(Debug, PartialEq, Eq)]
pub enum DuplicateStep<R> {
    /// Ask the platform whether the reference is closed on exec, then hand
    /// the reply to [`inspected`].
    Inspect,
    /// Make a second reference to the open file, closed on exec or not as
    /// `close_on_exec` says, then hand the reply to [`duplicated`].
    Duplicate { close_on_exec: bool },
    /// The operation is over.
    Done(Result<R, IoError>),
}

/// Starts duplicating a reference.
pub fn duplicate<R>() -> (step: DuplicateStep<R>)
    ensures
        step == DuplicateStep::<R>::Inspect,
{
    DuplicateStep::Inspect
}

/// Takes the reply to the inspection: whether the original is closed on
/// exec, or the platform's error code. The duplicate is asked for with the
/// same attribute; an error ends the operation with its code.
pub fn inspected<R>(reply: Result<bool, i32>) -> (step: DuplicateStep<R>)
    ensures
        step == match reply {
            Ok(close_on_exec) => DuplicateStep::<R>::Duplicate { close_on_exec },
            Err(code) => DuplicateStep::Done(Err(IoError::Os(code))),
        },
{
    match reply {
        Ok(close_on_exec) => DuplicateStep::Duplicate { close_on_exec },
        Err(code) => DuplicateStep::Done(Err(IoError::Os(code))),
    }
}

/// Takes the reply to the duplication: the new reference, or the platform's
/// error code. Ends the operation with the one or the other.
pub fn duplicated<R>(reply: Result<R, i32>) -> (step: DuplicateStep<R>)
    ensures
        step == match reply {
            Ok(reference) => DuplicateStep::Done(Ok(reference)),
            Err(code) => DuplicateStep::Done(Err(IoError::Os(code))),
        },
{
    match reply {
        Ok(reference) => DuplicateStep::Done(Ok(reference)),
        Err(code) => DuplicateStep::Done(Err(IoError::Os(code))),
    }
}

} // verus!
