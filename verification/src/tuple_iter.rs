//! Iteration over the positions of a tuple whose positions all hold one
//! type: by reference, by value, and back from a sequence into a tuple.

pub mod from_iter;
pub mod into_iter;
pub mod iter;
pub mod size2;
pub mod size3;
pub mod size4;
pub mod size5;
pub mod size6;
pub mod size7;
pub mod size8;
pub mod size9;
pub mod size10;
pub mod size11;
pub mod size12;
pub mod size13;
pub mod size14;
pub mod size15;
pub mod size16;
pub mod size17;
pub mod size18;
pub mod size19;
pub mod size20;
pub mod size21;
pub mod size22;
pub mod size23;
pub mod size24;
pub mod size25;
pub mod size26;
pub mod size27;
pub mod size28;
pub mod size29;
pub mod size30;
pub mod size31;
pub mod size32;

pub use crate::tuple_iter::from_iter::{built_from, take_items, InsufficientElements};
pub use crate::tuple_iter::into_iter::IntoIter;
pub use crate::tuple_iter::iter::Iter;
use crate::tuple_utils::TupleSame;
use vstd::prelude::*;
use vstd::std_specs::iter::IteratorSpec;

verus! {

/// A tuple that can be iterated by reference.
pub trait TupleIter<'a> {
    type Iter: Iterator + 'a;

    /// The references to the positions, first to last.
    spec fn refs(&'a self) -> Seq<<Self::Iter as Iterator>::Item>;

    /// A fresh cursor over references to the positions, first to last. The
    /// tuple is neither consumed nor changed.
    fn iter(&'a self) -> (it: Self::Iter)
        ensures
            <Self::Iter as IteratorSpec>::obeys_prophetic_iter_laws(&it),
            <Self::Iter as IteratorSpec>::remaining(&it) == self.refs(),
    ;
}

/// A tuple that can be iterated by value.
pub trait TupleIntoIter: Sized {
    type Iter: Iterator;

    /// The items of the positions, first to last.
    spec fn values(self) -> Seq<<Self::Iter as Iterator>::Item>;

    /// A fresh cursor that owns the items and hands them out by value,
    /// first to last.
    fn into_iter(self) -> (it: Self::Iter)
        ensures
            <Self::Iter as IteratorSpec>::obeys_prophetic_iter_laws(&it),
            <Self::Iter as IteratorSpec>::remaining(&it) == self.values(),
    ;
}

/// A tuple that can be built from a sequence of items.
pub trait TupleFromIter<T>: TupleSame<T> + Sized {
    /// The tuple of the first items of `items`, one for each position and
    /// in order. Further items are dropped. Fewer items than positions are
    /// an error, and no tuple is built from them.
    fn from_vec(items: Vec<T>) -> (r: Result<Self, InsufficientElements>)
        ensures
            built_from(items@, r),
    ;

    /// Pulls one item for each position off `iter`, in order, and builds
    /// the tuple of them. It stops after the last position, so what
    /// follows stays in `iter`. Where `iter` runs out earlier, the result is
    /// an error and `iter` is left exhausted.
    fn from_iter<I: Iterator<Item = T>>(iter: &mut I) -> (r: Result<Self, InsufficientElements>)
        ensures
            r matches Err(e) ==> e.needed == Self::arity() && e.found < Self::arity(),
            <I as IteratorSpec>::obeys_prophetic_iter_laws(old(iter)) ==> ({
                let source = <I as IteratorSpec>::remaining(old(iter));
                let left = <I as IteratorSpec>::remaining(final(iter));
                &&& <I as IteratorSpec>::obeys_prophetic_iter_laws(final(iter))
                &&& built_from(source, r)
                &&& r is Ok ==> left == source.skip(Self::arity() as int)
                &&& r is Err ==> left == Seq::<T>::empty()
            }),
    ;
}

} // verus!
