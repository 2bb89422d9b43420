//! Tuples of 2 positions.

use crate::tuple_utils::{Tuple, TupleAsMut, TupleAsRef, TupleSame};
use vstd::prelude::*;

verus! {

/// A tuple of 2 positions that all hold the type `T`.
pub type Same2<T> = (T, T);

impl<T0, T1> Tuple for (T0, T1) {
    open spec fn arity() -> nat {
        2
    }

    fn size(&self) -> (n: usize) {
        2
    }
}

impl<T> TupleSame<T> for Same2<T> {
    open spec fn items(&self) -> Seq<T> {
        seq![self.0, self.1]
    }

    open spec fn of_items(items: Seq<T>) -> Self {
        (items[0], items[1])
    }

    proof fn lemma_items_len(&self) {
    }

    proof fn lemma_of_items(&self) {
    }

    proof fn lemma_items_of(items: Seq<T>) {
        assert(Self::of_items(items).items() =~= items);
    }

    fn get(&self, index: usize) -> (r: Option<&T>) {
        match index {
            0 => Some(&self.0),
            1 => Some(&self.1),
            _ => None,
        }
    }
}

impl<'a, T0: 'a, T1: 'a> TupleAsRef<'a> for (T0, T1) {
    type OutTuple = (&'a T0, &'a T1);

    fn as_ref(&'a self) -> (r: Self::OutTuple)
        ensures
            r == (&self.0, &self.1),
    {
        (&self.0, &self.1)
    }
}

impl<'a, T0: 'a, T1: 'a> TupleAsMut<'a> for (T0, T1) {
    type OutTuple = (&'a mut T0, &'a mut T1);

    fn as_mut(&'a mut self) -> (r: Self::OutTuple)
        ensures
            (*r.0, *r.1) == *old(self),
            *final(self) == (*final(r.0), *final(r.1)),
    {
        (&mut self.0, &mut self.1)
    }
}

/// One function applied to every position of a tuple of 2 positions that
/// all hold the type `T`.
pub trait Tuple2Map<T>: TupleSame<T> {
    /// Applies `f` to the items in positional order, first to last, and
    /// returns the results in the same positions.
    fn map<U, F: FnMut(T) -> U>(self, f: F) -> (r: Same2<U>)
        requires
            forall|i: int| 0 <= i < 2 ==> f.requires((#[trigger] self.items()[i],)),
        ensures
            forall|i: int| 0 <= i < 2 ==> f.ensures((self.items()[i],), #[trigger] r.items()[i]),
            r == <Same2<U> as TupleSame<U>>::of_items(r.items()),
    ;
}

impl<T> Tuple2Map<T> for Same2<T> {
    fn map<U, F: FnMut(T) -> U>(self, f: F) -> (r: Same2<U>) {
        let mut f = f;
        proof {
            self.lemma_of_items();
        }
        let r = (f(self.0), f(self.1));
        proof {
            r.lemma_of_items();
        }
        r
    }
}

/// One function applied to one position of a tuple of 2 positions. The
/// other positions keep their values and types.
pub trait Tuple2MapAt<T0, T1>: Sized {
    /// The tuple itself, position by position.
    spec fn parts(self) -> (T0, T1);

    /// Applies `f` to position 0.
    fn map0<U, F: FnOnce(T0) -> U>(self, f: F) -> (r: (U, T1))
        requires
            f.requires((self.parts().0,)),
        ensures
            f.ensures((self.parts().0,), r.0),
            r == (r.0, self.parts().1),
    ;

    /// Applies `f` to position 1.
    fn map1<U, F: FnOnce(T1) -> U>(self, f: F) -> (r: (T0, U))
        requires
            f.requires((self.parts().1,)),
        ensures
            f.ensures((self.parts().1,), r.1),
            r == (self.parts().0, r.1),
    ;
}

impl<T0, T1> Tuple2MapAt<T0, T1> for (T0, T1) {
    open spec fn parts(self) -> (T0, T1) {
        self
    }

    fn map0<U, F: FnOnce(T0) -> U>(self, f: F) -> (r: (U, T1)) {
        (f(self.0), self.1)
    }

    fn map1<U, F: FnOnce(T1) -> U>(self, f: F) -> (r: (T0, U)) {
        (self.0, f(self.1))
    }
}

} // verus!
