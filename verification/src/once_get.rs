//! A place that is filled on first use.

use vstd::prelude::*;

verus! {

/// A place that holds a value or is still empty, and is filled when its
/// value is first asked for.
pub trait OnceGet<T> {
    /// What the place holds.
    spec fn content(&self) -> Option<T>;

    /// A reference to the value in the place. An empty place is first
    /// filled with the result of `f`; a filled one is left as it is and `f`
    /// is not called.
    fn get_or_init<F: FnOnce() -> T>(&mut self, f: F) -> (r: &T)
        requires
            old(self).content() is None ==> f.requires(()),
        ensures
            old(self).content() is Some ==> final(self).content() == old(self).content(),
            old(self).content() is None ==> f.ensures((), final(self).content()->0),
            final(self).content() == Some(*r),
    ;

    /// A mutable reference to the value in the place, filled as by
    /// `get_or_init`. What is written through the reference is what the
    /// place holds afterwards.
    fn get_mut_or_init<F: FnOnce() -> T>(&mut self, f: F) -> (r: &mut T)
        requires
            old(self).content() is None ==> f.requires(()),
        ensures
            old(self).content() is Some ==> old(self).content() == Some(*r),
            old(self).content() is None ==> f.ensures((), *r),
            final(self).content() == Some(*final(r)),
    ;
}

impl<T> OnceGet<T> for Option<T> {
    open spec fn content(&self) -> Option<T> {
        *self
    }

    fn get_or_init<F: FnOnce() -> T>(&mut self, f: F) -> (r: &T) {
        if self.is_none() {
            *self = Some(f());
        }
        self.as_ref().unwrap()
    }

    fn get_mut_or_init<F: FnOnce() -> T>(&mut self, f: F) -> (r: &mut T) {
        if self.is_none() {
            *self = Some(f());
        }
        self.as_mut().unwrap()
    }
}

} // verus!
