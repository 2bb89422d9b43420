//! Dropping a value at the end of a chain of calls.

use vstd::prelude::*;

verus! {

/// Drop self.
pub trait Void {
    /// Takes the value and discards it.
    fn void(self);
}

impl<T> Void for T {
    fn void(self) {
    }
}

} // verus!
