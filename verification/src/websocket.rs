//! The message adapter used by the streaming layer where an interface
//! foreign to the standard result type must be implemented on a
//! result-shaped value.

use vstd::prelude::*;

verus! {

/// A custom result-style type on which such foreign interfaces can be
/// implemented; it carries no further meaning.
#[derive(Debug)]
pub enum MessageResult<T, E> {
    /// The success value.
    Success(T),
    /// The error value.
    Failure(E),
}

impl<T, E> vstd::std_specs::convert::FromSpecImpl<Result<T, E>> for MessageResult<T, E> {
    open spec fn obeys_from_spec() -> bool {
        true
    }

    open spec fn from_spec(v: Result<T, E>) -> Self {
        match v {
            Ok(t) => MessageResult::Success(t),
            Err(e) => MessageResult::Failure(e),
        }
    }
}

impl<T, E> From<Result<T, E>> for MessageResult<T, E> {
    fn from(v: Result<T, E>) -> Self {
        match v {
            Ok(t) => MessageResult::Success(t),
            Err(e) => MessageResult::Failure(e),
        }
    }
}

} // verus!
