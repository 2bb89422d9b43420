//! Calls in a chain that run a function on the value at hand.

use vstd::prelude::*;

verus! {

/// Hands the value to a function and returns what the function returns.
pub trait Used: Sized {
    /// The result of `f` on `self`.
    fn used<F: FnOnce(Self) -> R, R>(self, f: F) -> (r: R)
        requires
            f.requires((self,)),
        ensures
            f.ensures((self,), r),
    ;
}

impl<T> Used for T {
    fn used<F: FnOnce(Self) -> R, R>(self, f: F) -> (r: R) {
        f(self)
    }
}

/// Shows the value to a function and returns the value.
pub trait Also: Sized {
    /// Runs `f` on a reference to `self` and returns `self` unchanged.
    fn also<F: FnOnce(&Self)>(self, f: F) -> (r: Self)
        requires
            f.requires((&self,)),
        ensures
            r == self,
            f.ensures((&self,), ()),
    ;
}

impl<T> Also for T {
    fn also<F: FnOnce(&Self)>(self, f: F) -> (r: Self) {
        f(&self);
        self
    }
}

/// Lets a function change the value and returns the value.
pub trait AlsoMut: Sized {
    /// Runs `f` on a mutable reference to `self` and returns the value as
    /// `f` left it.
    fn also_mut<F: FnOnce(&mut Self)>(self, f: F) -> (r: Self)
        requires
            forall|m: &mut Self| *m == self ==> f.requires((m,)),
        ensures
            exists|m: &mut Self| *m == self && *final(m) == r && f.ensures((m,), ()),
    ;
}

impl<T> AlsoMut for T {
    fn also_mut<F: FnOnce(&mut Self)>(self, f: F) -> (r: Self) {
        let mut value = self;
        f(&mut value);
        value
    }
}

} // verus!
