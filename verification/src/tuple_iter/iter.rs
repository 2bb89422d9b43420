//! The borrowing cursor.

use crate::cursor::Cursor;
use crate::tuple_utils::TupleSame;
use core::marker::PhantomData;
use vstd::prelude::*;
use vstd::std_specs::iter::IteratorSpecImpl;

verus! {

/// `o` with its item behind a reference.
pub open spec fn by_ref<'a, T>(o: Option<T>) -> Option<&'a T> {
    match o {
        Some(v) => Some(&v),
        None => None,
    }
}

/// A cursor over references to the positions of a tuple. It holds a
/// position and a reference to the tuple, and only the position ever
/// changes.
#[derive(Debug)]
pub struct Iter<'a, T, S: TupleSame<T>> {
    pos: usize,
    tuple: &'a S,
    marker: PhantomData<T>,
}

impl<'a, T, S: TupleSame<T>> View for Iter<'a, T, S> {
    type V = Cursor<T>;

    closed spec fn view(&self) -> Cursor<T> {
        Cursor { arity: S::arity(), rest: self.tuple.items().skip(self.pos as int) }
    }
}

impl<'a, T, S: TupleSame<T>> Iter<'a, T, S> {
    #[verifier::type_invariant]
    closed spec fn position_in_range(self) -> bool {
        self.pos <= S::arity()
    }

    /// The tuple that the cursor runs over.
    pub closed spec fn source(&self) -> &'a S {
        self.tuple
    }

    /// A fresh cursor over `tuple`, at position 0.
    pub fn new(tuple: &'a S) -> (it: Self)
        ensures
            it@ == Cursor::start(tuple.items()),
            it.source() == tuple,
    {
        proof {
            tuple.lemma_items_len();
            assert(tuple.items().skip(0) =~= tuple.items());
        }
        Iter { pos: 0, tuple, marker: PhantomData }
    }

    /// The tuple that the cursor runs over.
    pub fn as_ref(&self) -> (tuple: &'a S)
        ensures
            tuple == self.source(),
            self@.wf(),
            self@.arity == S::arity(),
            self@.rest == tuple.items().skip(self@.position() as int),
    {
        proof {
            use_type_invariant(self);
            self.tuple.lemma_items_len();
        }
        self.tuple
    }

    /// The number of positions still to come: exactly the number of calls
    /// of `next()` that will succeed.
    pub fn remaining_count(&self) -> (n: usize)
        ensures
            n == self@.remaining_count(),
            n + self@.position() == S::arity(),
    {
        proof {
            use_type_invariant(self);
            self.tuple.lemma_items_len();
        }
        let size: usize = self.tuple.size();
        size - self.pos
    }
}

impl<'a, T, S: TupleSame<T>> Clone for Iter<'a, T, S> {
    /// A second cursor over the same tuple, at the same position.
    fn clone(&self) -> (it: Self)
        ensures
            it@ == self@,
            it.source() == self.source(),
    {
        proof {
            use_type_invariant(self);
        }
        Iter { pos: self.pos, tuple: self.tuple, marker: PhantomData }
    }
}

impl<'a, T, S: TupleSame<T>> Copy for Iter<'a, T, S> {
}

impl<'a, T: 'a, S: TupleSame<T>> Iterator for Iter<'a, T, S> {
    type Item = &'a T;

    /// The item at the cursor's position, if there is one; the cursor
    /// moves one position on. At the end it returns `None` and stays.
    fn next(&mut self) -> (r: Option<&'a T>)
        ensures
            final(self)@ == old(self)@.after_next(),
            r == by_ref(old(self)@.next_item()),
            final(self).source() == old(self).source(),
    {
        proof {
            use_type_invariant(&*self);
            self.tuple.lemma_items_len();
        }
        let tuple: &'a S = self.tuple;
        let size: usize = tuple.size();
        let r = tuple.get(self.pos);
        if self.pos < size {
            self.pos = self.pos + 1;
        }
        assert(old(self)@.rest.len() > 0 ==> self@.rest =~= old(self)@.rest.drop_first());
        r
    }

    /// The number of positions still to come, as both bounds.
    fn size_hint(&self) -> (r: (usize, Option<usize>))
        ensures
            r.0 == self@.remaining_count(),
            r.1 == Some(r.0),
    {
        let exact: usize = self.remaining_count();
        (exact, Some(exact))
    }

    /// The number of positions still to come.
    fn count(self) -> (n: usize)
        ensures
            n == self@.remaining_count(),
    {
        self.remaining_count()
    }

    /// The item `k` positions ahead, if there is one. The cursor moves
    /// past it, or to the end where there is none.
    fn nth(&mut self, k: usize) -> (r: Option<&'a T>)
        ensures
            final(self)@ == old(self)@.after_nth(k as nat),
            r == by_ref(old(self)@.nth_item(k as nat)),
            final(self).source() == old(self).source(),
    {
        proof {
            use_type_invariant(&*self);
            self.tuple.lemma_items_len();
        }
        let tuple: &'a S = self.tuple;
        let size: usize = tuple.size();
        let left: usize = size - self.pos;
        if k < left {
            let target: usize = self.pos + k;
            self.pos = target + 1;
            assert(self@.rest =~= old(self)@.rest.skip(k as int + 1));
            tuple.get(target)
        } else {
            self.pos = size;
            assert(self@.rest =~= Seq::<T>::empty());
            None
        }
    }

    /// The item of the final position, unless the cursor is exhausted.
    fn last(self) -> (r: Option<&'a T>)
        ensures
            r == by_ref(self@.last_item()),
    {
        proof {
            use_type_invariant(&self);
            self.tuple.lemma_items_len();
        }
        let tuple: &'a S = self.tuple;
        let size: usize = tuple.size();
        if self.pos < size {
            tuple.get(size - 1)
        } else {
            None
        }
    }
}

impl<'a, T: 'a, S: TupleSame<T>> ExactSizeIterator for Iter<'a, T, S> {
    /// The number of positions still to come.
    fn len(&self) -> (n: usize)
        ensures
            n == self@.remaining_count(),
    {
        self.remaining_count()
    }
}

impl<'a, T: 'a, S: TupleSame<T>> core::iter::FusedIterator for Iter<'a, T, S> {
}

impl<'a, T: 'a, S: TupleSame<T>> IteratorSpecImpl for Iter<'a, T, S> {
    open spec fn obeys_prophetic_iter_laws(&self) -> bool {
        true
    }

    open spec fn remaining(&self) -> Seq<&'a T> {
        self@.rest.map_values(|v: T| &v)
    }

    open spec fn will_return_none(&self) -> bool {
        true
    }

    open spec fn decrease(&self) -> Option<nat> {
        Some(self@.rest.len())
    }

    open spec fn initial_value_relation(&self, init: &Self) -> bool {
        init@ == self@
    }

    open spec fn peek(&self, index: int) -> Option<&'a T> {
        if 0 <= index < self@.rest.len() {
            Some(&self@.rest[index])
        } else {
            None
        }
    }
}

} // verus!
