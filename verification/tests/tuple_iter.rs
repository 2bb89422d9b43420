use libsugar::tuple_iter::from_iter::{take_items, InsufficientElements};
use libsugar::tuple_iter::{TupleFromIter, TupleIntoIter, TupleIter};
use libsugar::tuple_utils::size32::Same32;
use libsugar::tuple_utils::{Tuple, TupleSame};
use std::cell::Cell;
use std::rc::Rc;

/// A value that counts, under its own number, how often it is dropped.
struct Tally {
    id: usize,
    drops: Rc<Vec<Cell<usize>>>,
}

impl Drop for Tally {
    fn drop(&mut self) {
        let count = &self.drops[self.id];
        count.set(count.get() + 1);
    }
}

fn counters(n: usize) -> Rc<Vec<Cell<usize>>> {
    Rc::new((0..n).map(|_| Cell::new(0)).collect())
}

fn tally(id: usize, drops: &Rc<Vec<Cell<usize>>>) -> Tally {
    Tally { id, drops: Rc::clone(drops) }
}

fn counts(drops: &Rc<Vec<Cell<usize>>>) -> Vec<usize> {
    drops.iter().map(|c| c.get()).collect()
}

#[derive(Debug, PartialEq)]
enum Value {
    Int(i32),
    Text(&'static str),
    Real(f64),
}

fn thirty_two() -> Same32<u32> {
    (
        0, 1, 2, 3, 4, 5, 6, 7, 8, 9, 10, 11, 12, 13, 14, 15, 16, 17, 18, 19, 20, 21, 22, 23, 24,
        25, 26, 27, 28, 29, 30, 31,
    )
}

#[test]
fn borrowing_iteration_yields_each_position_in_order() {
    let t = (Value::Int(10), Value::Text("x"), Value::Real(3.5));
    let mut it = t.iter();
    assert_eq!(it.next(), Some(&Value::Int(10)));
    assert_eq!(it.next(), Some(&Value::Text("x")));
    assert_eq!(it.next(), Some(&Value::Real(3.5)));
    assert_eq!(it.next(), None);
    assert_eq!(t.0, Value::Int(10));
    assert_eq!(t.2, Value::Real(3.5));
}

#[test]
fn borrowing_iteration_yields_references_into_the_tuple() {
    let t = (1u8, 2u8);
    let mut it = t.iter();
    let first = it.next().unwrap();
    let second = it.next().unwrap();
    assert!(std::ptr::eq(first, &t.0));
    assert!(std::ptr::eq(second, &t.1));
    assert!(std::ptr::eq(t.iter().as_ref(), &t));
}

#[test]
fn borrowing_iteration_over_thirty_two_positions() {
    let t = thirty_two();
    let seen: Vec<u32> = t.iter().copied().collect();
    assert_eq!(seen, (0..32).collect::<Vec<u32>>());
    let mut it = t.iter();
    for k in 0..32u32 {
        assert_eq!(it.next(), Some(&k));
    }
    assert_eq!(it.next(), None);
}

#[test]
fn a_for_loop_runs_over_the_positions() {
    let t = (1, 2, 3, 4);
    let mut sum = 0;
    for x in t.iter() {
        sum += *x;
    }
    assert_eq!(sum, 10);
    let mut owned = Vec::new();
    for x in t.into_iter() {
        owned.push(x);
    }
    assert_eq!(owned, vec![1, 2, 3, 4]);
}

#[test]
fn remaining_count_is_exact_after_every_number_of_calls() {
    let t = (7, 8, 9, 10, 11);
    for j in 0..=5usize {
        let mut by_ref = t.iter();
        let mut by_value = t.into_iter();
        for _ in 0..j {
            assert!(by_ref.next().is_some());
            assert!(by_value.next().is_some());
        }
        assert_eq!(by_ref.remaining_count(), 5 - j);
        assert_eq!(by_value.remaining_count(), 5 - j);
        assert_eq!(by_ref.len(), 5 - j);
        assert_eq!(by_value.len(), 5 - j);
        assert_eq!(by_ref.size_hint(), (5 - j, Some(5 - j)));
        assert_eq!(by_value.size_hint(), (5 - j, Some(5 - j)));
        assert_eq!(by_ref.count(), 5 - j);
        assert_eq!(by_value.count(), 5 - j);
    }
    let big = thirty_two();
    let mut it = big.iter();
    for j in 0..=32usize {
        assert_eq!(it.remaining_count(), 32 - j);
        it.next();
    }
    assert_eq!(it.remaining_count(), 0);
}

#[test]
fn exhaustion_is_permanent() {
    let t = (1, 2);
    let mut by_ref = t.iter();
    assert_eq!(by_ref.next(), Some(&1));
    assert_eq!(by_ref.next(), Some(&2));
    assert_eq!(by_ref.next(), None);
    assert_eq!(by_ref.next(), None);
    assert_eq!(by_ref.nth(0), None);
    assert_eq!(by_ref.nth(5), None);
    assert_eq!(by_ref.next(), None);
    assert_eq!(by_ref.remaining_count(), 0);
    assert_eq!(by_ref.last(), None);

    let mut by_value = t.into_iter();
    assert_eq!(by_value.next(), Some(1));
    assert_eq!(by_value.next(), Some(2));
    assert_eq!(by_value.next(), None);
    assert_eq!(by_value.next(), None);
    assert_eq!(by_value.nth(0), None);
    assert_eq!(by_value.nth(usize::MAX), None);
    assert_eq!(by_value.next(), None);
    assert_eq!(by_value.remaining_count(), 0);
    assert_eq!(by_value.last(), None);
}

#[test]
fn a_copy_of_a_cursor_goes_its_own_way() {
    let t = (1, 2, 3);
    let mut first = t.iter();
    assert_eq!(first.next(), Some(&1));
    let mut second = first;
    let mut third = first.clone();
    assert_eq!(second.next(), Some(&2));
    assert_eq!(second.next(), Some(&3));
    assert_eq!(second.next(), None);
    assert_eq!(first.next(), Some(&2));
    assert_eq!(third.nth(1), Some(&3));
    assert_eq!(first.remaining_count(), 1);
}

#[test]
fn cursors_work_with_the_adaptors_of_std() {
    let t = (1, 2, 3, 4);
    assert_eq!(t.iter().map(|x| x * 2).collect::<Vec<_>>(), vec![2, 4, 6, 8]);
    assert_eq!(t.into_iter().skip(1).step_by(2).collect::<Vec<_>>(), vec![2, 4]);
    assert_eq!(t.iter().zip(t.into_iter()).count(), 4);
    let mut fused = t.into_iter().fuse();
    assert_eq!(fused.nth(3), Some(4));
    assert_eq!(fused.next(), None);
    assert_eq!(fused.next(), None);
    assert_eq!(format!("{:?}", t.iter().last()), "Some(4)");
}

#[test]
fn nth_past_the_end_exhausts_the_cursor() {
    let t = (1, 2, 3);
    let mut by_ref = t.iter();
    assert_eq!(by_ref.nth(3), None);
    assert_eq!(by_ref.remaining_count(), 0);
    assert_eq!(by_ref.next(), None);
    let mut by_value = t.into_iter();
    assert_eq!(by_value.next(), Some(1));
    assert_eq!(by_value.nth(2), None);
    assert_eq!(by_value.remaining_count(), 0);
    assert_eq!(by_value.next(), None);
    let mut far = t.iter();
    assert_eq!(far.next(), Some(&1));
    assert_eq!(far.nth(usize::MAX), None);
    assert_eq!(far.remaining_count(), 0);
}

#[test]
fn nth_is_as_many_calls_of_next_and_one_more() {
    let t = (10, 11, 12, 13, 14, 15);
    for start in 0..=6usize {
        for k in 0..8usize {
            let mut a = t.iter();
            let mut b = t.iter();
            let mut c = t.into_iter();
            let mut d = t.into_iter();
            for _ in 0..start {
                a.next();
                b.next();
                c.next();
                d.next();
            }
            let by_nth = a.nth(k);
            let mut by_next = None;
            for _ in 0..=k {
                by_next = b.next();
            }
            assert_eq!(by_nth, by_next);
            assert_eq!(a.remaining_count(), b.remaining_count());
            assert_eq!(a.next(), b.next());

            let by_nth = c.nth(k);
            let mut by_next = None;
            for _ in 0..=k {
                by_next = d.next();
            }
            assert_eq!(by_nth, by_next);
            assert_eq!(c.remaining_count(), d.remaining_count());
            assert_eq!(c.next(), d.next());
        }
    }
}

#[test]
fn nth_from_a_fresh_cursor_gives_that_position() {
    let t = thirty_two();
    for k in 0..32usize {
        let mut it = t.iter();
        assert_eq!(it.nth(k), Some(&(k as u32)));
        assert_eq!(it.remaining_count(), 31 - k);
        let mut owned = t.into_iter();
        assert_eq!(owned.nth(k), Some(k as u32));
        assert_eq!(owned.remaining_count(), 31 - k);
    }
}

#[test]
fn last_gives_the_final_position() {
    let t = (1, 2, 3);
    assert_eq!(t.iter().last(), Some(&3));
    assert_eq!(t.into_iter().last(), Some(3));
    let mut it = t.iter();
    it.next();
    it.next();
    assert_eq!(it.last(), Some(&3));
    let mut owned = t.into_iter();
    owned.nth(1);
    assert_eq!(owned.last(), Some(3));
    assert_eq!(thirty_two().iter().last(), Some(&31));
    assert_eq!(thirty_two().into_iter().last(), Some(31));
}

#[test]
fn owning_cursor_drops_each_item_once_whenever_it_is_discarded() {
    for j in 0..=3usize {
        let drops = counters(3);
        let mut it = (tally(0, &drops), tally(1, &drops), tally(2, &drops)).into_iter();
        let mut got = Vec::new();
        for _ in 0..j {
            got.push(it.next().unwrap());
        }
        assert_eq!(counts(&drops), vec![0, 0, 0]);
        drop(it);
        let expected: Vec<usize> = (0..3).map(|i| if i < j { 0 } else { 1 }).collect();
        assert_eq!(counts(&drops), expected);
        assert_eq!(got.iter().map(|t| t.id).collect::<Vec<_>>(), (0..j).collect::<Vec<_>>());
        drop(got);
        assert_eq!(counts(&drops), vec![1, 1, 1]);
    }
}

#[test]
fn owning_cursor_discarded_after_one_call() {
    let drops = counters(3);
    let t = (
        (Value::Int(10), tally(0, &drops)),
        (Value::Text("x"), tally(1, &drops)),
        (Value::Real(3.5), tally(2, &drops)),
    );
    let mut it = t.into_iter();
    let first = it.next().unwrap();
    assert_eq!(first.0, Value::Int(10));
    assert_eq!(first.1.id, 0);
    assert_eq!(it.remaining_count(), 2);
    drop(it);
    assert_eq!(counts(&drops), vec![0, 1, 1]);
    drop(first);
    assert_eq!(counts(&drops), vec![1, 1, 1]);
}

#[test]
fn owning_cursor_exhausted_leaves_nothing_to_drop() {
    let drops = counters(2);
    let mut it = (tally(0, &drops), tally(1, &drops)).into_iter();
    let a = it.next().unwrap();
    let b = it.next().unwrap();
    assert!(it.next().is_none());
    assert!(it.next().is_none());
    drop(it);
    assert_eq!(counts(&drops), vec![0, 0]);
    drop(a);
    drop(b);
    assert_eq!(counts(&drops), vec![1, 1]);
}

#[test]
fn owning_nth_discards_what_it_skips() {
    let t = (String::from("a"), String::from("b"), String::from("c"), String::from("d"));
    let mut it = t.into_iter();
    assert_eq!(it.nth(2), Some(String::from("c")));
    assert_eq!(it.next(), Some(String::from("d")));
    assert_eq!(it.next(), None);

    let drops = counters(4);
    let mut it =
        (tally(0, &drops), tally(1, &drops), tally(2, &drops), tally(3, &drops)).into_iter();
    let third = it.nth(2).unwrap();
    assert_eq!(third.id, 2);
    assert_eq!(counts(&drops), vec![1, 1, 0, 0]);
    let fourth = it.next().unwrap();
    assert_eq!(fourth.id, 3);
    assert!(it.next().is_none());
    drop(it);
    assert_eq!(counts(&drops), vec![1, 1, 0, 0]);
    drop(third);
    drop(fourth);
    assert_eq!(counts(&drops), vec![1, 1, 1, 1]);
}

#[test]
fn slots_are_empty_below_the_position_and_present_from_it_on() {
    let mut it = (1, 2, 3, 4).into_iter();
    assert_eq!(format!("{:?}", it), "IntoIter { pos: 0, slots: [Some(1), Some(2), Some(3), Some(4)] }");
    it.next();
    assert_eq!(format!("{:?}", it), "IntoIter { pos: 1, slots: [None, Some(2), Some(3), Some(4)] }");
    it.nth(1);
    assert_eq!(format!("{:?}", it), "IntoIter { pos: 3, slots: [None, None, None, Some(4)] }");
    it.next();
    assert_eq!(format!("{:?}", it), "IntoIter { pos: 4, slots: [None, None, None, None] }");
    it.next();
    it.nth(7);
    assert_eq!(format!("{:?}", it), "IntoIter { pos: 4, slots: [None, None, None, None] }");
}

#[test]
fn owning_nth_past_the_end_discards_everything() {
    let drops = counters(3);
    let mut it = (tally(0, &drops), tally(1, &drops), tally(2, &drops)).into_iter();
    assert!(it.nth(3).is_none());
    assert_eq!(counts(&drops), vec![1, 1, 1]);
    drop(it);
    assert_eq!(counts(&drops), vec![1, 1, 1]);
}

#[test]
fn owning_last_discards_the_others() {
    let drops = counters(3);
    let it = (tally(0, &drops), tally(1, &drops), tally(2, &drops)).into_iter();
    let last = it.last().unwrap();
    assert_eq!(last.id, 2);
    assert_eq!(counts(&drops), vec![1, 1, 0]);
    drop(last);
    assert_eq!(counts(&drops), vec![1, 1, 1]);
}

#[test]
fn get_reads_a_position_by_index() {
    let t = (5, 6, 7);
    assert_eq!(t.get(0), Some(&5));
    assert_eq!(t.get(1), Some(&6));
    assert_eq!(t.get(2), Some(&7));
    assert_eq!(t.get(3), None);
    assert_eq!(t.get(usize::MAX), None);
    let big = thirty_two();
    for i in 0..32usize {
        assert_eq!(big.get(i), Some(&(i as u32)));
    }
    assert_eq!(big.get(32), None);
}

#[test]
fn too_few_items_are_an_error() {
    let mut source = vec![1, 2].into_iter();
    let r: Result<(i32, i32, i32), InsufficientElements> = TupleFromIter::from_iter(&mut source);
    assert_eq!(r, Err(InsufficientElements { needed: 3, found: 2 }));
    assert_eq!(source.next(), None);

    let mut empty = Vec::<i32>::new().into_iter();
    let r: Result<(i32, i32), InsufficientElements> = TupleFromIter::from_iter(&mut empty);
    assert_eq!(r, Err(InsufficientElements { needed: 2, found: 0 }));

    let r: Result<(i32, i32, i32), InsufficientElements> = TupleFromIter::from_vec(vec![1, 2]);
    assert_eq!(r, Err(InsufficientElements { needed: 3, found: 2 }));
    let r: Result<(i32, i32), InsufficientElements> = TupleFromIter::from_vec(vec![]);
    assert_eq!(r, Err(InsufficientElements { needed: 2, found: 0 }));
}

#[test]
fn exactly_enough_items_fill_the_tuple_in_order() {
    let mut source = vec![1, 2, 3].into_iter();
    let r: Result<(i32, i32, i32), InsufficientElements> = TupleFromIter::from_iter(&mut source);
    assert_eq!(r, Ok((1, 2, 3)));
    assert_eq!(source.next(), None);
    let r: Result<(i32, i32, i32), InsufficientElements> = TupleFromIter::from_vec(vec![1, 2, 3]);
    assert_eq!(r, Ok((1, 2, 3)));
    let r: Result<(&str, &str), InsufficientElements> = TupleFromIter::from_vec(vec!["a", "b"]);
    assert_eq!(r, Ok(("a", "b")));
}

#[test]
fn further_items_stay_in_the_source() {
    let mut source = vec![1, 2, 3, 4, 5].into_iter();
    let r: Result<(i32, i32, i32), InsufficientElements> = TupleFromIter::from_iter(&mut source);
    assert_eq!(r, Ok((1, 2, 3)));
    assert_eq!(source.next(), Some(4));
    assert_eq!(source.next(), Some(5));
    assert_eq!(source.next(), None);

    let mut endless = 1..;
    let r: Result<(i32, i32), InsufficientElements> = TupleFromIter::from_iter(&mut endless);
    assert_eq!(r, Ok((1, 2)));
    assert_eq!(endless.next(), Some(3));

    let r: Result<(i32, i32), InsufficientElements> = TupleFromIter::from_vec(vec![1, 2, 3, 4]);
    assert_eq!(r, Ok((1, 2)));
}

#[test]
fn take_items_pulls_no_more_than_asked() {
    let mut source = vec![1, 2, 3, 4].into_iter();
    assert_eq!(take_items(&mut source, 0), Vec::<i32>::new());
    assert_eq!(take_items(&mut source, 3), vec![1, 2, 3]);
    assert_eq!(source.next(), Some(4));
    let mut short = vec![1, 2].into_iter();
    assert_eq!(take_items(&mut short, 5), vec![1, 2]);
    assert_eq!(short.next(), None);
}

#[test]
fn a_tuple_comes_back_from_its_own_items() {
    let t = (1, 2);
    let r: Result<(i32, i32), InsufficientElements> = TupleFromIter::from_iter(&mut t.into_iter());
    assert_eq!(r, Ok(t));

    let t = (String::from("a"), String::from("b"), String::from("c"));
    let r: Result<(String, String, String), InsufficientElements> =
        TupleFromIter::from_iter(&mut t.clone().into_iter());
    assert_eq!(r, Ok(t));

    let t = (1u8, 2u8, 3u8, 4u8, 5u8, 6u8, 7u8, 8u8, 9u8, 10u8, 11u8, 12u8);
    let mut cloned = t.iter().copied();
    let r: Result<(u8, u8, u8, u8, u8, u8, u8, u8, u8, u8, u8, u8), InsufficientElements> =
        TupleFromIter::from_iter(&mut cloned);
    assert_eq!(r, Ok(t));

    let big = thirty_two();
    let back: Same32<u32> = match TupleFromIter::from_iter(&mut big.into_iter()) {
        Ok(t) => t,
        Err(e) => panic!("{:?}", e),
    };
    assert_eq!(back.iter().collect::<Vec<_>>(), big.iter().collect::<Vec<_>>());
    assert_eq!(back.size(), 32);
    assert_eq!(back.31, 31);
    assert_eq!(back.0, 0);
}
