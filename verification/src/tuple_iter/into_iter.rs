//! The owning cursor.
//!
//! It keeps each item in a slot of its own that is either present or
//! empty. An item leaves its slot exactly when it is handed out or skipped,
//! so a slot is read at most once, and what is still present when the cursor
//! is discarded is discarded with it.

use crate::cursor::Cursor;
use vstd::prelude::*;
use vstd::std_specs::iter::IteratorSpecImpl;

verus! {

/// Every slot below `pos` is empty and every slot from `pos` on is present.
spec fn slots_hold<T>(slots: Seq<Option<T>>, pos: int) -> bool {
    &&& 0 <= pos <= slots.len()
    &&& forall|i: int| 0 <= i < pos ==> (#[trigger] slots[i]) is None
    &&& forall|i: int| pos <= i < slots.len() ==> (#[trigger] slots[i]) is Some
}

/// The items of the slots from `pos` on.
pub(crate) open spec fn held<T>(slots: Seq<Option<T>>, pos: int) -> Seq<T> {
    Seq::new((slots.len() - pos) as nat, |k: int| slots[pos + k]->0)
}

/// The slots agree with the cursor state `c`: the positions that the cursor
/// has passed are empty, and the others hold, in order, what the cursor
/// still has to hand out.
pub open spec fn slots_account_for<T>(slots: Seq<Option<T>>, c: Cursor<T>) -> bool {
    &&& c.wf()
    &&& slots.len() == c.arity
    &&& forall|i: int| 0 <= i < c.position() ==> (#[trigger] slots[i]) is None
    &&& forall|i: int|
        c.position() <= i < c.arity ==> #[trigger] slots[i] == Some(c.rest[i - c.position()])
}

/// A cursor that owns the items of a tuple of `N` positions and hands them
/// out by value.
#[derive(Debug)]
pub struct IntoIter<T, const N: usize> {
    pos: usize,
    slots: [Option<T>; N],
}

/// Moves the item at `pos` out of its slot and steps past it.
fn take_slot<T, const N: usize>(pos: &mut usize, slots: &mut [Option<T>; N]) -> (r: Option<T>)
    requires
        slots_hold(old(slots)@, *old(pos) as int),
    ensures
        slots_hold(final(slots)@, *final(pos) as int),
        *old(pos) < N ==> r == old(slots)@[*old(pos) as int] && *final(pos) == *old(pos) + 1
            && final(slots)@ == old(slots)@.update(*old(pos) as int, None),
        *old(pos) >= N ==> r is None && *final(pos) == *old(pos) && final(slots)@ == old(
            slots,
        )@,
    no_unwind
{
    if *pos < N {
        let mut item: Option<T> = None;
        core::mem::swap(&mut slots[*pos], &mut item);
        *pos = *pos + 1;
        item
    } else {
        None
    }
}

/// Empties the slots from `pos` up to `target` and steps to `target`. The
/// items that were in them are discarded here.
fn discard_until<T, const N: usize>(pos: &mut usize, slots: &mut [Option<T>; N], target: usize)
    requires
        slots_hold(old(slots)@, *old(pos) as int),
        *old(pos) <= target <= N,
    ensures
        slots_hold(final(slots)@, target as int),
        *final(pos) == target,
        forall|i: int| target <= i < N ==> (#[trigger] final(slots)@[i]) == old(slots)@[i],
    no_unwind
{
    while *pos < target
        invariant
            *pos <= target <= N,
            slots_hold(slots@, *pos as int),
            forall|i: int| *pos <= i < N ==> (#[trigger] slots@[i]) == old(slots)@[i],
        decreases target - *pos,
    {
        let mut skipped: Option<T> = None;
        core::mem::swap(&mut slots[*pos], &mut skipped);
        *pos = *pos + 1;
    }
}

impl<T, const N: usize> View for IntoIter<T, N> {
    type V = Cursor<T>;

    closed spec fn view(&self) -> Cursor<T> {
        Cursor { arity: N as nat, rest: held(self.slots@, self.pos as int) }
    }
}

impl<T, const N: usize> IntoIter<T, N> {
    #[verifier::type_invariant]
    closed spec fn slots_in_step(self) -> bool {
        slots_hold(self.slots@, self.pos as int)
    }

    /// The slots, one for each position of the tuple: `None` where the item
    /// has left, `Some` where it is still present.
    pub closed spec fn slots(&self) -> Seq<Option<T>> {
        self.slots@
    }

    /// A fresh cursor over the items in `slots`, at position 0.
    pub(crate) fn from_slots(slots: [Option<T>; N]) -> (it: Self)
        requires
            forall|i: int| 0 <= i < N ==> (#[trigger] slots@[i]) is Some,
        ensures
            it@ == Cursor::start(held(slots@, 0)),
            it.slots() == slots@,
            slots_account_for(it.slots(), it@),
    {
        IntoIter { pos: 0, slots }
    }

    /// The number of items still to come: exactly the number of calls of
    /// `next()` that will succeed.
    pub fn remaining_count(&self) -> (n: usize)
        ensures
            n == self@.remaining_count(),
            n + self@.position() == N,
            slots_account_for(self.slots(), self@),
    {
        proof {
            use_type_invariant(self);
        }
        N - self.pos
    }
}

impl<T, const N: usize> Iterator for IntoIter<T, N> {
    type Item = T;

    /// Moves the item at the cursor's position out of its slot and hands it
    /// out; the cursor moves one position on. At the end it returns `None`
    /// and stays.
    fn next(&mut self) -> (r: Option<T>)
        ensures
            final(self)@ == old(self)@.after_next(),
            r == old(self)@.next_item(),
            slots_account_for(final(self).slots(), final(self)@),
    {
        proof {
            use_type_invariant(&*self);
        }
        let r = take_slot(&mut self.pos, &mut self.slots);
        proof {
            if old(self)@.rest.len() > 0 {
                assert(self@.rest =~= old(self)@.rest.drop_first());
            } else {
                assert(self@.rest =~= old(self)@.rest);
            }
        }
        r
    }

    /// The number of items still to come, as both bounds.
    fn size_hint(&self) -> (r: (usize, Option<usize>))
        ensures
            r.0 == self@.remaining_count(),
            r.1 == Some(r.0),
    {
        let exact: usize = self.remaining_count();
        (exact, Some(exact))
    }

    /// The number of items still to come. They are discarded with the
    /// cursor.
    fn count(self) -> (n: usize)
        ensures
            n == self@.remaining_count(),
    {
        self.remaining_count()
    }

    /// The item `k` positions ahead, if there is one. The items of the
    /// positions skipped are discarded, and the cursor moves past the item
    /// handed out, or to the end where there is none.
    fn nth(&mut self, k: usize) -> (r: Option<T>)
        ensures
            final(self)@ == old(self)@.after_nth(k as nat),
            r == old(self)@.nth_item(k as nat),
            slots_account_for(final(self).slots(), final(self)@),
    {
        proof {
            use_type_invariant(&*self);
        }
        let left: usize = N - self.pos;
        let target: usize = if k < left {
            self.pos + k
        } else {
            N
        };
        discard_until(&mut self.pos, &mut self.slots, target);
        let r = take_slot(&mut self.pos, &mut self.slots);
        proof {
            if k < left {
                assert(self@.rest =~= old(self)@.rest.skip(k as int + 1));
            } else {
                assert(self@.rest =~= Seq::<T>::empty());
            }
        }
        r
    }

    /// The item of the final position, unless the cursor is exhausted.
    /// Whatever else was still present is discarded with the cursor.
    fn last(self) -> (r: Option<T>)
        ensures
            r == self@.last_item(),
    {
        let mut it = self;
        let left: usize = it.remaining_count();
        if left == 0 {
            None
        } else {
            it.nth(left - 1)
        }
    }
}

impl<T, const N: usize> ExactSizeIterator for IntoIter<T, N> {
    /// The number of items still to come.
    fn len(&self) -> (n: usize)
        ensures
            n == self@.remaining_count(),
    {
        self.remaining_count()
    }
}

impl<T, const N: usize> core::iter::FusedIterator for IntoIter<T, N> {
}

impl<T, const N: usize> IteratorSpecImpl for IntoIter<T, N> {
    open spec fn obeys_prophetic_iter_laws(&self) -> bool {
        true
    }

    open spec fn remaining(&self) -> Seq<T> {
        self@.rest
    }

    open spec fn will_return_none(&self) -> bool {
        true
    }

    open spec fn decrease(&self) -> Option<nat> {
        Some(self@.rest.len())
    }

    open spec fn initial_value_relation(&self, init: &Self) -> bool {
        init@ == self@
    }

    open spec fn peek(&self, index: int) -> Option<T> {
        if 0 <= index < self@.rest.len() {
            Some(self@.rest[index])
        } else {
            None
        }
    }
}

/// No item is lost and none is held twice. After `j` calls of `next()` on a
/// fresh owning cursor over `items`, the caller has been handed the items of
/// the positions below `j`, in order, and their slots are empty; every
/// other position is still present in its slot. So when the cursor is
/// discarded, what goes with it is exactly what the caller never received.
pub proof fn lemma_each_item_held_once<T>(items: Seq<T>, j: nat, slots: Seq<Option<T>>)
    requires
        j <= items.len(),
        slots_account_for(slots, Cursor::start(items).advance(j)),
    ensures
        Cursor::start(items).handed_out(j) == items.take(j as int),
        forall|i: int| 0 <= i < j ==> (#[trigger] slots[i]) is None,
        forall|i: int| j <= i < items.len() ==> #[trigger] slots[i] == Some(items[i]),
{
    crate::cursor::lemma_advance(Cursor::start(items), j);
}

} // verus!
