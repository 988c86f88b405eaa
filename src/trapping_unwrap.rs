//! Unwrapping that is proved never to fail, for `Option` and `Result`.

use vstd::prelude::*;

verus! {

/// Postfix unwrapping whose caller proves the value is present.
pub trait TrappingUnwrap<T>: Sized {
    /// The value holds a `T`.
    spec fn unwrappable(&self) -> bool;

    /// The `T` it holds.
    spec fn unwrapped(&self) -> T;

    fn trapping_unwrap(self) -> (r: T)
        requires
            self.unwrappable(),
        ensures
            r == self.unwrapped(),
    ;
}

impl<T> TrappingUnwrap<T> for Option<T> {
    open spec fn unwrappable(&self) -> bool {
        self is Some
    }

    open spec fn unwrapped(&self) -> T {
        self->Some_0
    }

    fn trapping_unwrap(self) -> (r: T) {
        match self {
            Some(t) => t,
            None => vstd::pervasive::unreached(),
        }
    }
}

impl<T, E> TrappingUnwrap<T> for Result<T, E> {
    open spec fn unwrappable(&self) -> bool {
        self is Ok
    }

    open spec fn unwrapped(&self) -> T {
        self->Ok_0
    }

    fn trapping_unwrap(self) -> (r: T) {
        match self {
            Ok(t) => t,
            Err(_) => vstd::pervasive::unreached(),
        }
    }
}

} // verus!
