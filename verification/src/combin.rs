//! Pairing two values without nesting calls.

use vstd::prelude::*;

verus! {

/// Makes a tuple with the argument in front: `a.after(b)` is `(b, a)`.
pub trait After<T, Output> {
    /// The tuple of `v` and `self`, in this order.
    fn after(self, v: T) -> Output;
}

impl<S, T> After<T, (T, S)> for S {
    fn after(self, v: T) -> (r: (T, S))
        ensures
            r == (v, self),
    {
        (v, self)
    }
}

/// Makes a tuple with the argument behind: `a.with(b)` is `(a, b)`.
pub trait With<T, Output> {
    /// The tuple of `self` and `v`, in this order.
    fn with(self, v: T) -> Output;
}

impl<S, T> With<T, (S, T)> for S {
    fn with(self, v: T) -> (r: (S, T))
        ensures
            r == (self, v),
    {
        (self, v)
    }
}

} // verus!
