//! Extraction of the `Some` or `Ok` payload.
use vstd::prelude::*;

verus! {

/// A container from which a "present" payload can be extracted: `Some` of an
/// `Option`, `Ok` of a `Result`.
pub trait DebugUnwrapExt: Sized {
    /// The type of the extracted payload.
    type Value;

    /// The container is in the state that holds a payload.
    spec fn has_value(&self) -> bool;

    /// The payload held, meaningful when `has_value` holds.
    spec fn value(&self) -> Self::Value;

    /// Returns the payload, consuming the container.
    fn debug_unwrap_unchecked(self) -> (r: Self::Value)
        requires
            self.has_value(),
        ensures
            r == self.value(),
    ;

    /// Returns the payload, consuming the container. `msg` is the message
    /// that an unverified caller breaking the precondition panics with.
    fn debug_expect_unchecked(self, msg: &str) -> (r: Self::Value)
        requires
            self.has_value(),
        ensures
            r == self.value(),
    ;
}

impl<T> DebugUnwrapExt for Option<T> {
    type Value = T;

    open spec fn has_value(&self) -> bool {
        *self is Some
    }

    open spec fn value(&self) -> T {
        self->0
    }

    fn debug_unwrap_unchecked(self) -> (r: T)
        ensures
            r == self->0,
    {
        self.unwrap()
    }

    fn debug_expect_unchecked(self, msg: &str) -> (r: T)
        ensures
            r == self->0,
    {
        self.expect(msg)
    }
}

impl<T, E: core::fmt::Debug> DebugUnwrapExt for Result<T, E> {
    type Value = T;

    open spec fn has_value(&self) -> bool {
        *self is Ok
    }

    open spec fn value(&self) -> T {
        self->Ok_0
    }

    fn debug_unwrap_unchecked(self) -> (r: T)
        ensures
            r == self->Ok_0,
    {
        self.unwrap()
    }

    fn debug_expect_unchecked(self, msg: &str) -> (r: T)
        ensures
            r == self->Ok_0,
    {
        self.expect(msg)
    }
}

} // verus!
