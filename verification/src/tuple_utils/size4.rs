//! Tuples of 4 positions.

use crate::tuple_utils::{Tuple, TupleAsMut, TupleAsRef, TupleSame};
use vstd::prelude::*;

verus! {

/// A tuple of 4 positions that all hold the type `T`.
pub type Same4<T> = (T, T, T, T);

impl<T0, T1, T2, T3> Tuple for (T0, T1, T2, T3) {
    open spec fn arity() -> nat {
        4
    }

    fn size(&self) -> (n: usize) {
        4
    }
}

impl<T> TupleSame<T> for Same4<T> {
    open spec fn items(&self) -> Seq<T> {
        seq![self.0, self.1, self.2, self.3]
    }

    open spec fn of_items(items: Seq<T>) -> Self {
        (items[0], items[1], items[2], items[3])
    }

    proof fn lemma_items_len(&self) {
    }

    proof fn lemma_of_items(&self) {
    }

    proof fn lemma_items_of(items: Seq<T>) {
        assert(Self::of_items(items).items() =~= items);
    }

    fn get(&self, index: usize) -> (r: Option<&T>) {
        match index {
            0 => Some(&self.0),
            1 => Some(&self.1),
            2 => Some(&self.2),
            3 => Some(&self.3),
            _ => None,
        }
    }
}

impl<'a, T0: 'a, T1: 'a, T2: 'a, T3: 'a> TupleAsRef<'a> for (T0, T1, T2, T3) {
    type OutTuple = (&'a T0, &'a T1, &'a T2, &'a T3);

    fn as_ref(&'a self) -> (r: Self::OutTuple)
        ensures
            r == (&self.0, &self.1, &self.2, &self.3),
    {
        (&self.0, &self.1, &self.2, &self.3)
    }
}

impl<'a, T0: 'a, T1: 'a, T2: 'a, T3: 'a> TupleAsMut<'a> for (T0, T1, T2, T3) {
    type OutTuple = (&'a mut T0, &'a mut T1, &'a mut T2, &'a mut T3);

    fn as_mut(&'a mut self) -> (r: Self::OutTuple)
        ensures
            (*r.0, *r.1, *r.2, *r.3) == *old(self),
            *final(self) == (*final(r.0), *final(r.1), *final(r.2), *final(r.3)),
    {
        (&mut self.0, &mut self.1, &mut self.2, &mut self.3)
    }
}

/// One function applied to every position of a tuple of 4 positions that
/// all hold the type `T`.
pub trait Tuple4Map<T>: TupleSame<T> {
    /// Applies `f` to the items in positional order, first to last, and
    /// returns the results in the same positions.
    fn map<U, F: FnMut(T) -> U>(self, f: F) -> (r: Same4<U>)
        requires
            forall|i: int| 0 <= i < 4 ==> f.requires((#[trigger] self.items()[i],)),
        ensures
            forall|i: int| 0 <= i < 4 ==> f.ensures((self.items()[i],), #[trigger] r.items()[i]),
            r == <Same4<U> as TupleSame<U>>::of_items(r.items()),
    ;
}

impl<T> Tuple4Map<T> for Same4<T> {
    fn map<U, F: FnMut(T) -> U>(self, f: F) -> (r: Same4<U>) {
        let mut f = f;
        proof {
            self.lemma_of_items();
        }
        let r = (f(self.0), f(self.1), f(self.2), f(self.3));
        proof {
            r.lemma_of_items();
        }
        r
    }
}

/// One function applied to one position of a tuple of 4 positions. The
/// other positions keep their values and types.
pub trait Tuple4MapAt<T0, T1, T2, T3>: Sized {
    /// The tuple itself, position by position.
    spec fn parts(self) -> (T0, T1, T2, T3);

    /// Applies `f` to position 0.
    fn map0<U, F: FnOnce(T0) -> U>(self, f: F) -> (r: (U, T1, T2, T3))
        requires
            f.requires((self.parts().0,)),
        ensures
            f.ensures((self.parts().0,), r.0),
            r == (r.0, self.parts().1, self.parts().2, self.parts().3),
    ;

    /// Applies `f` to position 1.
    fn map1<U, F: FnOnce(T1) -> U>(self, f: F) -> (r: (T0, U, T2, T3))
        requires
            f.requires((self.parts().1,)),
        ensures
            f.ensures((self.parts().1,), r.1),
            r == (self.parts().0, r.1, self.parts().2, self.parts().3),
    ;

    /// Applies `f` to position 2.
    fn map2<U, F: FnOnce(T2) -> U>(self, f: F) -> (r: (T0, T1, U, T3))
        requires
            f.requires((self.parts().2,)),
        ensures
            f.ensures((self.parts().2,), r.2),
            r == (self.parts().0, self.parts().1, r.2, self.parts().3),
    ;

    /// Applies `f` to position 3.
    fn map3<U, F: FnOnce(T3) -> U>(self, f: F) -> (r: (T0, T1, T2, U))
        requires
            f.requires((self.parts().3,)),
        ensures
            f.ensures((self.parts().3,), r.3),
            r == (self.parts().0, self.parts().1, self.parts().2, r.3),
    ;
}

impl<T0, T1, T2, T3> Tuple4MapAt<T0, T1, T2, T3> for (T0, T1, T2, T3) {
    open spec fn parts(self) -> (T0, T1, T2, T3) {
        self
    }

    fn map0<U, F: FnOnce(T0) -> U>(self, f: F) -> (r: (U, T1, T2, T3)) {
        (f(self.0), self.1, self.2, self.3)
    }

    fn map1<U, F: FnOnce(T1) -> U>(self, f: F) -> (r: (T0, U, T2, T3)) {
        (self.0, f(self.1), self.2, self.3)
    }

    fn map2<U, F: FnOnce(T2) -> U>(self, f: F) -> (r: (T0, T1, U, T3)) {
        (self.0, self.1, f(self.2), self.3)
    }

    fn map3<U, F: FnOnce(T3) -> U>(self, f: F) -> (r: (T0, T1, T2, U)) {
        (self.0, self.1, self.2, f(self.3))
    }
}

} // verus!
