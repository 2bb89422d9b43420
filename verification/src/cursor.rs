//! The abstract state of a cursor over the positions of a tuple, and the laws
//! that every cursor of this crate obeys because its operations are stated
//! over this state.

use vstd::prelude::*;

verus! {

/// What a cursor over a tuple of `arity` positions still has to hand out:
/// `rest` holds the items of the positions not yet passed, in positional
/// order. The cursor stands at position `arity - rest.len()`.
pub struct Cursor<T> {
    pub arity: nat,
    pub rest: Seq<T>,
}

/// One call on a cursor: `next()`, or `nth(k)`.
pub enum Step {
    Next,
    Nth(nat),
}

impl<T> Cursor<T> {
    /// A fresh cursor over `items`: position 0, everything still to come.
    pub open spec fn start(items: Seq<T>) -> Self {
        Cursor { arity: items.len(), rest: items }
    }

    /// The position lies within `0..=arity`.
    pub open spec fn wf(self) -> bool {
        self.rest.len() <= self.arity
    }

    /// The index of the position that the next call hands out.
    pub open spec fn position(self) -> nat {
        (self.arity - self.rest.len()) as nat
    }

    /// How many further calls of `next()` succeed.
    pub open spec fn remaining_count(self) -> nat {
        self.rest.len()
    }

    /// What `next()` returns.
    pub open spec fn next_item(self) -> Option<T> {
        if self.rest.len() > 0 {
            Some(self.rest[0])
        } else {
            None
        }
    }

    /// The state that `next()` leaves.
    pub open spec fn after_next(self) -> Self {
        if self.rest.len() > 0 {
            Cursor { arity: self.arity, rest: self.rest.drop_first() }
        } else {
            self
        }
    }

    /// What `nth(k)` returns: the item `k` positions ahead, if there is one.
    pub open spec fn nth_item(self, k: nat) -> Option<T> {
        if k < self.rest.len() {
            Some(self.rest[k as int])
        } else {
            None
        }
    }

    /// The state that `nth(k)` leaves: the position moves past the item
    /// handed out, or to the end where there was none.
    pub open spec fn after_nth(self, k: nat) -> Self {
        if k < self.rest.len() {
            Cursor { arity: self.arity, rest: self.rest.skip(k as int + 1) }
        } else {
            Cursor { arity: self.arity, rest: Seq::empty() }
        }
    }

    /// What `last()` returns: the item of the final position, unless the
    /// cursor is exhausted.
    pub open spec fn last_item(self) -> Option<T> {
        if self.rest.len() > 0 {
            Some(self.rest.last())
        } else {
            None
        }
    }

    /// The state after `j` calls of `next()`.
    pub open spec fn advance(self, j: nat) -> Self
        decreases j,
    {
        if j == 0 {
            self
        } else {
            self.after_next().advance((j - 1) as nat)
        }
    }

    /// The items that `j` calls of `next()` hand out, in the order of the
    /// calls.
    pub open spec fn handed_out(self, j: nat) -> Seq<T>
        decreases j,
    {
        if j == 0 || self.rest.len() == 0 {
            Seq::empty()
        } else {
            seq![self.rest[0]] + self.after_next().handed_out((j - 1) as nat)
        }
    }

    /// What one call returns.
    pub open spec fn step_item(self, step: Step) -> Option<T> {
        match step {
            Step::Next => self.next_item(),
            Step::Nth(k) => self.nth_item(k),
        }
    }

    /// The state that one call leaves.
    pub open spec fn after_step(self, step: Step) -> Self {
        match step {
            Step::Next => self.after_next(),
            Step::Nth(k) => self.after_nth(k),
        }
    }

    /// The state after the calls `steps`, made in order.
    pub open spec fn run(self, steps: Seq<Step>) -> Self
        decreases steps.len(),
    {
        if steps.len() == 0 {
            self
        } else {
            self.after_step(steps[0]).run(steps.drop_first())
        }
    }

    /// What the calls `steps`, made in order, return.
    pub open spec fn results(self, steps: Seq<Step>) -> Seq<Option<T>>
        decreases steps.len(),
    {
        if steps.len() == 0 {
            Seq::empty()
        } else {
            seq![self.step_item(steps[0])] + self.after_step(steps[0]).results(steps.drop_first())
        }
    }
}

/// `j` calls of `next()` hand out the first `j` of the items that a cursor
/// had left, in order, and move it by as many positions; at the end they
/// hand out nothing more and move it no further.
pub proof fn lemma_advance<T>(c: Cursor<T>, j: nat)
    ensures
        c.advance(j).arity == c.arity,
        j <= c.rest.len() ==> c.advance(j).rest == c.rest.skip(j as int),
        j <= c.rest.len() ==> c.handed_out(j) == c.rest.take(j as int),
        j >= c.rest.len() ==> c.advance(j).rest == Seq::<T>::empty(),
        j >= c.rest.len() ==> c.handed_out(j) == c.rest,
    decreases j,
{
    if j == 0 {
        assert(c.rest.skip(0) =~= c.rest);
        assert(c.rest.take(0) =~= Seq::<T>::empty());
        if c.rest.len() == 0 {
            assert(c.rest =~= Seq::<T>::empty());
        }
    } else {
        let d = c.after_next();
        lemma_advance(d, (j - 1) as nat);
        if c.rest.len() > 0 {
            if j <= c.rest.len() {
                assert(c.rest.drop_first().skip(j - 1) =~= c.rest.skip(j as int));
                assert(seq![c.rest[0]] + c.rest.drop_first().take(j - 1) =~= c.rest.take(j as int));
            } else {
                assert(seq![c.rest[0]] + c.rest.drop_first() =~= c.rest);
            }
        } else {
            assert(c.rest =~= Seq::<T>::empty());
        }
    }
}

/// Iteration is complete and in order: from a fresh cursor over `items`, the
/// call of `next()` that follows `k` earlier ones returns the item of
/// position `k`, for every position, and the call that follows
/// `items.len()` of them returns nothing.
pub proof fn lemma_yields_in_order<T>(items: Seq<T>, k: nat)
    requires
        k <= items.len(),
    ensures
        Cursor::start(items).advance(k).position() == k,
        k < items.len() ==> Cursor::start(items).advance(k).next_item() == Some(items[k as int]),
        k == items.len() ==> Cursor::start(items).advance(k).next_item() is None,
{
    lemma_advance(Cursor::start(items), k);
}

/// The count of what remains is exact: after `j` calls of `next()` on a
/// fresh cursor over `n` items it is `n - j`, for every `j` in `0..=n`.
pub proof fn lemma_remaining_count<T>(items: Seq<T>, j: nat)
    requires
        j <= items.len(),
    ensures
        Cursor::start(items).advance(j).remaining_count() == items.len() - j,
{
    lemma_advance(Cursor::start(items), j);
}

/// Exhaustion is permanent: once `next()` has returned nothing, every later
/// call, `next()` or `nth(k)` in any order, returns nothing and leaves the
/// cursor as it is.
pub proof fn lemma_fused<T>(c: Cursor<T>, steps: Seq<Step>)
    requires
        c.next_item() is None,
    ensures
        c.after_next() == c,
        c.after_next().run(steps) == c,
        c.after_next().results(steps).len() == steps.len(),
        forall|i: int|
            0 <= i < steps.len() ==> (#[trigger] c.after_next().results(steps)[i]) is None,
    decreases steps.len(),
{
    if steps.len() > 0 {
        let d = c.after_step(steps[0]);
        assert(c.rest =~= Seq::<T>::empty());
        assert(d == c);
        lemma_fused(c, steps.drop_first());
        let tail = c.results(steps.drop_first());
        let all = c.results(steps);
        assert(all == seq![c.step_item(steps[0])] + tail);
        assert forall|i: int| 0 <= i < steps.len() implies (#[trigger] all[i]) is None by {
            if i > 0 {
                assert(all[i] == tail[i - 1]);
            }
        }
    }
}

/// A cursor never moves back and never leaves its tuple: every call keeps
/// the position within `0..=arity` and at or beyond where it was.
pub proof fn lemma_step_moves_on<T>(c: Cursor<T>, step: Step)
    requires
        c.wf(),
    ensures
        c.after_step(step).wf(),
        c.after_step(step).arity == c.arity,
        c.after_step(step).position() >= c.position(),
        c.step_item(step) is Some ==> c.after_step(step).position() > c.position(),
{
}

/// `nth(k)` is `k + 1` calls of `next()`: it returns what the last of them
/// returns and leaves the cursor in the state that they leave.
pub proof fn lemma_nth_is_repeated_next<T>(c: Cursor<T>, k: nat)
    ensures
        c.nth_item(k) == c.advance(k).next_item(),
        c.after_nth(k) == c.advance(k + 1),
{
    lemma_advance(c, k);
    lemma_advance(c, k + 1);
}

/// `last()` returns what the final successful `next()` would return.
pub proof fn lemma_last_is_final_next<T>(c: Cursor<T>)
    requires
        c.rest.len() > 0,
    ensures
        c.last_item() == c.advance((c.rest.len() - 1) as nat).next_item(),
{
    lemma_advance(c, (c.rest.len() - 1) as nat);
}

} // verus!
