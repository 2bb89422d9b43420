//! Tuples built from sequences.

use crate::tuple_iter::TupleFromIter;
use crate::tuple_utils::TupleSame;
use vstd::prelude::*;
use vstd::std_specs::iter::IteratorSpec;

verus! {

/// A source ran out before it had given an item for every position.
#[derive(Debug, Clone, Copy, PartialEq, Eq, Structural)]
pub struct InsufficientElements {
    /// The number of positions to fill.
    pub needed: usize,
    /// The number of items that the source gave.
    pub found: usize,
}

/// `r` is what building a tuple of type `S` from `source` gives: the tuple
/// of the first items of `source`, one for each position and in order,
/// where `source` has that many, and otherwise the error that says how many
/// it had.
pub open spec fn built_from<T, S: TupleSame<T>>(
    source: Seq<T>,
    r: Result<S, InsufficientElements>,
) -> bool {
    if source.len() >= S::arity() {
        r == Ok::<S, InsufficientElements>(S::of_items(source.take(S::arity() as int)))
    } else {
        r == Err::<S, InsufficientElements>(
            InsufficientElements { needed: S::arity() as usize, found: source.len() as usize },
        )
    }
}

/// Pulls items off `iter`, in order, until it has `n` of them or `iter` is
/// exhausted, and returns them. It never pulls more than `n` times, so what
/// follows the first `n` items stays in `iter`.
pub fn take_items<T, I: Iterator<Item = T>>(iter: &mut I, n: usize) -> (items: Vec<T>)
    ensures
        items.len() <= n,
        <I as IteratorSpec>::obeys_prophetic_iter_laws(old(iter)) ==> ({
            let source = <I as IteratorSpec>::remaining(old(iter));
            let left = <I as IteratorSpec>::remaining(final(iter));
            &&& <I as IteratorSpec>::obeys_prophetic_iter_laws(final(iter))
            &&& n <= source.len() ==> items@ == source.take(n as int) && left == source.skip(
                n as int,
            )
            &&& n > source.len() ==> items@ == source && left == Seq::<T>::empty()
        }),
{
    let mut items: Vec<T> = Vec::new();
    let mut done: bool = false;
    assert(<I as IteratorSpec>::remaining(iter).skip(0) =~= <I as IteratorSpec>::remaining(iter));
    while items.len() < n && !done
        invariant
            items.len() <= n,
            <I as IteratorSpec>::obeys_prophetic_iter_laws(old(iter)) ==> ({
                let source = <I as IteratorSpec>::remaining(old(iter));
                let left = <I as IteratorSpec>::remaining(iter);
                &&& <I as IteratorSpec>::obeys_prophetic_iter_laws(iter)
                &&& items.len() <= source.len()
                &&& items@ == source.take(items.len() as int)
                &&& left == source.skip(items.len() as int)
                &&& done ==> left.len() == 0
            }),
        decreases n - items.len() + if done { 0int } else { 1int },
    {
        match iter.next() {
            Some(item) => {
                assert(<I as IteratorSpec>::obeys_prophetic_iter_laws(old(iter)) ==> ({
                    let source = <I as IteratorSpec>::remaining(old(iter));
                    let left = <I as IteratorSpec>::remaining(iter);
                    &&& items@.push(item) =~= source.take(items.len() + 1)
                    &&& left =~= source.skip(items.len() + 1)
                }));
                items.push(item);
            },
            None => {
                done = true;
            },
        }
    }
    assert(<I as IteratorSpec>::obeys_prophetic_iter_laws(old(iter)) ==> ({
        let source = <I as IteratorSpec>::remaining(old(iter));
        let left = <I as IteratorSpec>::remaining(iter);
        n > source.len() ==> items@ =~= source && left =~= Seq::<T>::empty()
    }));
    items
}

/// Round trip: a tuple built from the items of `t`, in positional order, is
/// `t` again.
pub proof fn lemma_round_trip<T, S: TupleFromIter<T>>(t: S, r: Result<S, InsufficientElements>)
    requires
        built_from(t.items(), r),
    ensures
        r == Ok::<S, InsufficientElements>(t),
{
    t.lemma_items_len();
    t.lemma_of_items();
    assert(t.items().take(S::arity() as int) =~= t.items());
}

/// Pull order is positional order: a tuple built from `source` holds the
/// first items of `source`, one for each position and in order.
pub proof fn lemma_built_in_order<T, S: TupleFromIter<T>>(
    source: Seq<T>,
    r: Result<S, InsufficientElements>,
)
    requires
        built_from(source, r),
        source.len() >= S::arity(),
    ensures
        r is Ok,
        r->Ok_0.items() == source.take(S::arity() as int),
{
    S::lemma_items_of(source.take(S::arity() as int));
}

} // verus!
