//! Iteration over tuples of 14 positions.

use crate::cursor::Cursor;
use crate::tuple_iter::from_iter::{take_items, InsufficientElements};
use crate::tuple_iter::into_iter::{held, slots_account_for, IntoIter};
use crate::tuple_iter::iter::Iter;
use crate::tuple_iter::{TupleFromIter, TupleIntoIter, TupleIter};
use crate::tuple_utils::size14::Same14;
use crate::tuple_utils::TupleSame;
use vstd::prelude::*;
use vstd::std_specs::iter::IteratorSpec;

verus! {

impl<'a, T: 'a> TupleIter<'a> for Same14<T> {
    type Iter = Iter<'a, T, Same14<T>>;

    open spec fn refs(&'a self) -> Seq<&'a T> {
        self.items().map_values(|v: T| &v)
    }

    fn iter(&'a self) -> (it: Self::Iter)
        ensures
            it@ == Cursor::start(self.items()),
            it.source() == self,
    {
        Iter::new(self)
    }
}

impl<T> TupleIntoIter for Same14<T> {
    type Iter = IntoIter<T, 14>;

    open spec fn values(self) -> Seq<T> {
        self.items()
    }

    fn into_iter(self) -> (it: Self::Iter)
        ensures
            it@ == Cursor::start(self.items()),
            slots_account_for(it.slots(), it@),
    {
        let slots = [
            Some(self.0), Some(self.1), Some(self.2), Some(self.3), Some(self.4), Some(self.5),
            Some(self.6), Some(self.7), Some(self.8), Some(self.9), Some(self.10), Some(self.11),
            Some(self.12), Some(self.13),
        ];
        assert(held(slots@, 0) =~= self.items());
        IntoIter::from_slots(slots)
    }
}

impl<T> TupleFromIter<T> for Same14<T> {
    fn from_vec(items: Vec<T>) -> (r: Result<Self, InsufficientElements>) {
        let mut items = items;
        let found: usize = items.len();
        if found < 14 {
            return Err(InsufficientElements { needed: 14, found });
        }
        items.truncate(14);
        let a13 = items.pop().unwrap();
        let a12 = items.pop().unwrap();
        let a11 = items.pop().unwrap();
        let a10 = items.pop().unwrap();
        let a9 = items.pop().unwrap();
        let a8 = items.pop().unwrap();
        let a7 = items.pop().unwrap();
        let a6 = items.pop().unwrap();
        let a5 = items.pop().unwrap();
        let a4 = items.pop().unwrap();
        let a3 = items.pop().unwrap();
        let a2 = items.pop().unwrap();
        let a1 = items.pop().unwrap();
        let a0 = items.pop().unwrap();
        Ok((a0, a1, a2, a3, a4, a5, a6, a7, a8, a9, a10, a11, a12, a13))
    }

    fn from_iter<I: Iterator<Item = T>>(iter: &mut I) -> (r: Result<Self, InsufficientElements>) {
        let items = take_items(iter, 14);
        assert(<I as IteratorSpec>::obeys_prophetic_iter_laws(old(iter)) ==> items@.take(14)
            =~= <I as IteratorSpec>::remaining(old(iter)).take(14));
        Self::from_vec(items)
    }
}

} // verus!
