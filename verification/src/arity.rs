//! The arities that the tuple families cover.
//!
//! Every family is written out once for each arity, so the set of arities
//! is closed: iteration and construction cover 2 to 32 positions, views and
//! maps 2 to 16.

use vstd::prelude::*;

verus! {

/// The smallest arity that any family covers.
pub const MIN_ARITY: usize = 2;

/// The largest arity with iteration and construction from a sequence.
pub const MAX_ITER_ARITY: usize = 32;

/// The largest arity with views and maps.
pub const MAX_MAP_ARITY: usize = 16;

/// Tuples of `arity` positions can be iterated and built from a sequence.
pub open spec fn iterable(arity: int) -> bool {
    2 <= arity <= 32
}

/// Tuples of `arity` positions have views and maps.
pub open spec fn mappable(arity: int) -> bool {
    2 <= arity <= 16
}

/// The numbers from `first` to `last`, ascending.
pub open spec fn span(first: int, last: int) -> Seq<usize> {
    Seq::new((last + 1 - first) as nat, |i: int| (first + i) as usize)
}

/// Whether tuples of `arity` positions can be iterated and built from a
/// sequence.
pub fn supports_iter(arity: usize) -> (b: bool)
    ensures
        b == iterable(arity as int),
{
    MIN_ARITY <= arity && arity <= MAX_ITER_ARITY
}

/// Whether tuples of `arity` positions have views and maps.
pub fn supports_map(arity: usize) -> (b: bool)
    ensures
        b == mappable(arity as int),
{
    MIN_ARITY <= arity && arity <= MAX_MAP_ARITY
}

/// The numbers from `first` to `last`, ascending; none where `first` is
/// above `last`.
fn numbers(first: usize, last: usize) -> (v: Vec<usize>)
    requires
        last < usize::MAX,
    ensures
        first <= last ==> v@ == span(first as int, last as int),
        first > last ==> v@ == Seq::<usize>::empty(),
{
    let mut v: Vec<usize> = Vec::new();
    let mut next: usize = first;
    while next <= last
        invariant
            last < usize::MAX,
            first <= next,
            next <= last + 1 || (first > last && next == first),
            v@ == Seq::new((next - first) as nat, |i: int| (first + i) as usize),
        decreases last + 1 - next,
    {
        v.push(next);
        next = next + 1;
        assert(v@ =~= Seq::new((next - first) as nat, |i: int| (first + i) as usize));
    }
    proof {
        if first <= last {
            assert(v@ =~= span(first as int, last as int));
        } else {
            assert(v@ =~= Seq::<usize>::empty());
        }
    }
    v
}

/// The arities with iteration and construction from a sequence: 2 to 32,
/// ascending.
pub fn iter_arities() -> (v: Vec<usize>)
    ensures
        v@ == span(2, 32),
        forall|n: int| iterable(n) <==> exists|i: int| 0 <= i < v.len() && v[i] == n,
{
    let v = numbers(MIN_ARITY, MAX_ITER_ARITY);
    assert forall|n: int| iterable(n) implies exists|i: int| 0 <= i < v.len() && v[i] == n by {
        assert(v[n - 2] == n);
    }
    v
}

/// The arities with views and maps: 2 to 16, ascending.
pub fn map_arities() -> (v: Vec<usize>)
    ensures
        v@ == span(2, 16),
        forall|n: int| mappable(n) <==> exists|i: int| 0 <= i < v.len() && v[i] == n,
{
    let v = numbers(MIN_ARITY, MAX_MAP_ARITY);
    assert forall|n: int| mappable(n) implies exists|i: int| 0 <= i < v.len() && v[i] == n by {
        assert(v[n - 2] == n);
    }
    v
}

/// The positions of a tuple of `arity` positions: 0 to `arity - 1`,
/// ascending.
pub fn positions(arity: usize) -> (v: Vec<usize>)
    ensures
        v@ == span(0, arity - 1),
{
    if arity == 0 {
        let v: Vec<usize> = Vec::new();
        assert(v@ =~= span(0, -1));
        v
    } else {
        numbers(0, arity - 1)
    }
}

/// The positions of a tuple of `arity` positions that have a map of their
/// own: every position where the arity has maps, and none where it has not.
pub fn map_positions(arity: usize) -> (v: Vec<usize>)
    ensures
        mappable(arity as int) ==> v@ == span(0, arity - 1),
        !mappable(arity as int) ==> v@ == Seq::<usize>::empty(),
{
    if supports_map(arity) {
        positions(arity)
    } else {
        Vec::new()
    }
}

} // verus!
