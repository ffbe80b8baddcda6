//! Extraction of the `Err` payload.
use vstd::prelude::*;

verus! {

/// Relies on std's `Result::expect_err`: it returns the `Err` payload, and
/// panics on an `Ok`.
pub assume_specification<T: core::fmt::Debug, E>[ Result::<T, E>::expect_err ](
    result: Result<T, E>,
    msg: &str,
) -> (e: E)
    requires
        result is Err,
    ensures
        e == result->Err_0,
;

/// A container from which a "failure" payload can be extracted: `Err` of a
/// `Result`.
pub trait DebugUnwrapErrExt: Sized {
    /// The type of the extracted failure payload.
    type ErrorType;

    /// The container is in the state that holds a failure payload.
    spec fn has_error(&self) -> bool;

    /// The failure payload held, meaningful when `has_error` holds.
    spec fn error(&self) -> Self::ErrorType;

    /// Returns the failure payload, consuming the container.
    fn debug_unwrap_err_unchecked(self) -> (r: Self::ErrorType)
        requires
            self.has_error(),
        ensures
            r == self.error(),
    ;

    /// Returns the failure payload, consuming the container. `msg` is the
    /// message that an unverified caller breaking the precondition panics
    /// with.
    fn debug_expect_err_unchecked(self, msg: &str) -> (r: Self::ErrorType)
        requires
            self.has_error(),
        ensures
            r == self.error(),
    ;
}

impl<T: core::fmt::Debug, E> DebugUnwrapErrExt for Result<T, E> {
    type ErrorType = E;

    open spec fn has_error(&self) -> bool {
        *self is Err
    }

    open spec fn error(&self) -> E {
        self->Err_0
    }

    fn debug_unwrap_err_unchecked(self) -> (r: E)
        ensures
            r == self->Err_0,
    {
        self.unwrap_err()
    }

    fn debug_expect_err_unchecked(self, msg: &str) -> (r: E)
        ensures
            r == self->Err_0,
    {
        self.expect_err(msg)
    }
}

} // verus!
