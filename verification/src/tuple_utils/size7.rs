//! Tuples of 7 positions.

use crate::tuple_utils::{Tuple, TupleAsMut, TupleAsRef, TupleSame};
use vstd::prelude::*;

verus! {

/// A tuple of 7 positions that all hold the type `T`.
pub type Same7<T> = (T, T, T, T, T, T, T);

impl<T0, T1, T2, T3, T4, T5, T6> Tuple for (T0, T1, T2, T3, T4, T5, T6) {
    open spec fn arity() -> nat {
        7
    }

    fn size(&self) -> (n: usize) {
        7
    }
}

impl<T> TupleSame<T> for Same7<T> {
    open spec fn items(&self) -> Seq<T> {
        seq![self.0, self.1, self.2, self.3, self.4, self.5, self.6]
    }

    open spec fn of_items(items: Seq<T>) -> Self {
        (items[0], items[1], items[2], items[3], items[4], items[5], items[6])
    }

    proof fn lemma_items_len(&self) {
    }

    proof fn lemma_of_items(&self) {
    }

    proof fn lemma_items_of(items: Seq<T>) {
        assert(Self::of_items(items).items() =~= items);
    }

    fn get(&self, index: usize) -> (r: Option<&T>) {
        match index {
            0 => Some(&self.0),
            1 => Some(&self.1),
            2 => Some(&self.2),
            3 => Some(&self.3),
            4 => Some(&self.4),
            5 => Some(&self.5),
            6 => Some(&self.6),
            _ => None,
        }
    }
}

impl<'a, T0: 'a, T1: 'a, T2: 'a, T3: 'a, T4: 'a, T5: 'a, T6: 'a> TupleAsRef<'a>
    for (T0, T1, T2, T3, T4, T5, T6)
{
    type OutTuple = (&'a T0, &'a T1, &'a T2, &'a T3, &'a T4, &'a T5, &'a T6);

    fn as_ref(&'a self) -> (r: Self::OutTuple)
        ensures
            r == (&self.0, &self.1, &self.2, &self.3, &self.4, &self.5, &self.6),
    {
        (&self.0, &self.1, &self.2, &self.3, &self.4, &self.5, &self.6)
    }
}

impl<'a, T0: 'a, T1: 'a, T2: 'a, T3: 'a, T4: 'a, T5: 'a, T6: 'a> TupleAsMut<'a>
    for (T0, T1, T2, T3, T4, T5, T6)
{
    type OutTuple = (
        &'a mut T0, &'a mut T1, &'a mut T2, &'a mut T3, &'a mut T4, &'a mut T5, &'a mut T6,
    );

    fn as_mut(&'a mut self) -> (r: Self::OutTuple)
        ensures
            (*r.0, *r.1, *r.2, *r.3, *r.4, *r.5, *r.6) == *old(self),
            *final(self) == (
                *final(r.0), *final(r.1), *final(r.2), *final(r.3), *final(r.4), *final(r.5),
                *final(r.6),
            ),
    {
        (&mut self.0, &mut self.1, &mut self.2, &mut self.3, &mut self.4, &mut self.5, &mut self.6)
    }
}

/// One function applied to every position of a tuple of 7 positions that
/// all hold the type `T`.
pub trait Tuple7Map<T>: TupleSame<T> {
    /// Applies `f` to the items in positional order, first to last, and
    /// returns the results in the same positions.
    fn map<U, F: FnMut(T) -> U>(self, f: F) -> (r: Same7<U>)
        requires
            forall|i: int| 0 <= i < 7 ==> f.requires((#[trigger] self.items()[i],)),
        ensures
            forall|i: int| 0 <= i < 7 ==> f.ensures((self.items()[i],), #[trigger] r.items()[i]),
            r == <Same7<U> as TupleSame<U>>::of_items(r.items()),
    ;
}

impl<T> Tuple7Map<T> for Same7<T> {
    fn map<U, F: FnMut(T) -> U>(self, f: F) -> (r: Same7<U>) {
        let mut f = f;
        proof {
            self.lemma_of_items();
        }
        let r = (f(self.0), f(self.1), f(self.2), f(self.3), f(self.4), f(self.5), f(self.6));
        proof {
            r.lemma_of_items();
        }
        r
    }
}

/// One function applied to one position of a tuple of 7 positions. The
/// other positions keep their values and types.
pub trait Tuple7MapAt<T0, T1, T2, T3, T4, T5, T6>: Sized {
    /// The tuple itself, position by position.
    spec fn parts(self) -> (T0, T1, T2, T3, T4, T5, T6);

    /// Applies `f` to position 0.
    fn map0<U, F: FnOnce(T0) -> U>(self, f: F) -> (r: (U, T1, T2, T3, T4, T5, T6))
        requires
            f.requires((self.parts().0,)),
        ensures
            f.ensures((self.parts().0,), r.0),
            r == (
                r.0, self.parts().1, self.parts().2, self.parts().3, self.parts().4, self.parts().5,
                self.parts().6,
            ),
    ;

    /// Applies `f` to position 1.
    fn map1<U, F: FnOnce(T1) -> U>(self, f: F) -> (r: (T0, U, T2, T3, T4, T5, T6))
        requires
            f.requires((self.parts().1,)),
        ensures
            f.ensures((self.parts().1,), r.1),
            r == (
                self.parts().0, r.1, self.parts().2, self.parts().3, self.parts().4, self.parts().5,
                self.parts().6,
            ),
    ;

    /// Applies `f` to position 2.
    fn map2<U, F: FnOnce(T2) -> U>(self, f: F) -> (r: (T0, T1, U, T3, T4, T5, T6))
        requires
            f.requires((self.parts().2,)),
        ensures
            f.ensures((self.parts().2,), r.2),
            r == (
                self.parts().0, self.parts().1, r.2, self.parts().3, self.parts().4, self.parts().5,
                self.parts().6,
            ),
    ;

    /// Applies `f` to position 3.
    fn map3<U, F: FnOnce(T3) -> U>(self, f: F) -> (r: (T0, T1, T2, U, T4, T5, T6))
        requires
            f.requires((self.parts().3,)),
        ensures
            f.ensures((self.parts().3,), r.3),
            r == (
                self.parts().0, self.parts().1, self.parts().2, r.3, self.parts().4, self.parts().5,
                self.parts().6,
            ),
    ;

    /// Applies `f` to position 4.
    fn map4<U, F: FnOnce(T4) -> U>(self, f: F) -> (r: (T0, T1, T2, T3, U, T5, T6))
        requires
            f.requires((self.parts().4,)),
        ensures
            f.ensures((self.parts().4,), r.4),
            r == (
                self.parts().0, self.parts().1, self.parts().2, self.parts().3, r.4, self.parts().5,
                self.parts().6,
            ),
    ;

    /// Applies `f` to position 5.
    fn map5<U, F: FnOnce(T5) -> U>(self, f: F) -> (r: (T0, T1, T2, T3, T4, U, T6))
        requires
            f.requires((self.parts().5,)),
        ensures
            f.ensures((self.parts().5,), r.5),
            r == (
                self.parts().0, self.parts().1, self.parts().2, self.parts().3, self.parts().4, r.5,
                self.parts().6,
            ),
    ;

    /// Applies `f` to position 6.
    fn map6<U, F: FnOnce(T6) -> U>(self, f: F) -> (r: (T0, T1, T2, T3, T4, T5, U))
        requires
            f.requires((self.parts().6,)),
        ensures
            f.ensures((self.parts().6,), r.6),
            r == (
                self.parts().0, self.parts().1, self.parts().2, self.parts().3, self.parts().4,
                self.parts().5, r.6,
            ),
    ;
}

impl<T0, T1, T2, T3, T4, T5, T6> Tuple7MapAt<T0, T1, T2, T3, T4, T5, T6> for (
    T0, T1, T2, T3, T4, T5, T6,
) {
    open spec fn parts(self) -> (T0, T1, T2, T3, T4, T5, T6) {
        self
    }

    fn map0<U, F: FnOnce(T0) -> U>(self, f: F) -> (r: (U, T1, T2, T3, T4, T5, T6)) {
        (f(self.0), self.1, self.2, self.3, self.4, self.5, self.6)
    }

    fn map1<U, F: FnOnce(T1) -> U>(self, f: F) -> (r: (T0, U, T2, T3, T4, T5, T6)) {
        (self.0, f(self.1), self.2, self.3, self.4, self.5, self.6)
    }

    fn map2<U, F: FnOnce(T2) -> U>(self, f: F) -> (r: (T0, T1, U, T3, T4, T5, T6)) {
        (self.0, self.1, f(self.2), self.3, self.4, self.5, self.6)
    }

    fn map3<U, F: FnOnce(T3) -> U>(self, f: F) -> (r: (T0, T1, T2, U, T4, T5, T6)) {
        (self.0, self.1, self.2, f(self.3), self.4, self.5, self.6)
    }

    fn map4<U, F: FnOnce(T4) -> U>(self, f: F) -> (r: (T0, T1, T2, T3, U, T5, T6)) {
        (self.0, self.1, self.2, self.3, f(self.4), self.5, self.6)
    }

    fn map5<U, F: FnOnce(T5) -> U>(self, f: F) -> (r: (T0, T1, T2, T3, T4, U, T6)) {
        (self.0, self.1, self.2, self.3, self.4, f(self.5), self.6)
    }

    fn map6<U, F: FnOnce(T6) -> U>(self, f: F) -> (r: (T0, T1, T2, T3, T4, T5, U)) {
        (self.0, self.1, self.2, self.3, self.4, self.5, f(self.6))
    }
}

} // verus!
