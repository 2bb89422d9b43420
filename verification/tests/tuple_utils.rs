use libsugar::tuple_utils::{
    Tuple, Tuple16Map, Tuple16MapAt, Tuple2Map, Tuple2MapAt, Tuple3Map, Tuple3MapAt, Tuple4Map,
    TupleAsMut, TupleAsRef, TupleSame,
};

fn sixteen() -> (
    u8,
    u16,
    u32,
    u64,
    i8,
    i16,
    i32,
    i64,
    bool,
    char,
    &'static str,
    String,
    usize,
    isize,
    (),
    Option<u8>,
) {
    (1, 2, 3, 4, -5, -6, -7, -8, true, 'j', "k", String::from("l"), 13, -14, (), Some(16))
}

#[test]
fn size_is_the_number_of_positions() {
    assert_eq!((1, "a").size(), 2);
    assert_eq!((1, "a", true).size(), 3);
    assert_eq!(sixteen().size(), 16);
    assert_eq!((0, 0, 0, 0, 0, 0, 0, 0, 0, 0, 0, 0, 0, 0, 0, 0, 0).size(), 17);
}

#[test]
fn as_ref_gives_a_reference_to_every_position() {
    let t = (1, String::from("a"), true);
    let (a, b, c) = t.as_ref();
    assert_eq!(*a, 1);
    assert_eq!(b, "a");
    assert!(*c);
    assert!(std::ptr::eq(a, &t.0));
    assert!(std::ptr::eq(b, &t.1));
    assert!(std::ptr::eq(c, &t.2));
    assert_eq!(t, (1, String::from("a"), true));

    let pair = (1u8, 2u16);
    assert_eq!(pair.as_ref(), (&1u8, &2u16));

    let big = sixteen();
    let refs = big.as_ref();
    assert_eq!(*refs.0, 1);
    assert_eq!(*refs.9, 'j');
    assert_eq!(refs.11, "l");
    assert_eq!(*refs.15, Some(16));
    assert!(std::ptr::eq(refs.15, &big.15));
}

#[test]
fn as_mut_writes_to_the_position_and_no_other() {
    let mut t = (1, String::from("a"), true);
    {
        let (a, b, c) = t.as_mut();
        *a += 1;
        b.push('!');
        *c = false;
    }
    assert_eq!(t, (2, String::from("a!"), false));
    {
        let (_, b, _) = t.as_mut();
        b.clear();
    }
    assert_eq!(t, (2, String::new(), false));

    let mut big = sixteen();
    {
        let refs = big.as_mut();
        *refs.0 = 100;
        *refs.15 = None;
    }
    assert_eq!(big.0, 100);
    assert_eq!(big.1, 2);
    assert_eq!(big.14, ());
    assert_eq!(big.15, None);
}

#[test]
fn map_applies_the_function_to_every_position_in_order() {
    let mut seen = Vec::new();
    let r = (1, 2, 3).map(|x| {
        seen.push(x);
        x + 1
    });
    assert_eq!(r, (2, 3, 4));
    assert_eq!(seen, vec![1, 2, 3]);
}

#[test]
fn map_may_change_the_type() {
    let r = (1, 2).map(|x| x.to_string());
    assert_eq!(r, (String::from("1"), String::from("2")));
    let r = ("a", "bc", "def", "").map(|s| s.len());
    assert_eq!(r, (1, 2, 3, 0));
}

#[test]
fn map_over_sixteen_positions_keeps_the_order() {
    let t = (0, 1, 2, 3, 4, 5, 6, 7, 8, 9, 10, 11, 12, 13, 14, 15);
    let mut seen = Vec::new();
    let r = t.map(|x| {
        seen.push(x);
        x * 2
    });
    assert_eq!(seen, (0..16).collect::<Vec<i32>>());
    assert_eq!(r.0, 0);
    assert_eq!(r.7, 14);
    assert_eq!(r.15, 30);
    let doubled: Vec<i32> = (0..16).map(|i| *r.get(i).unwrap()).collect();
    assert_eq!(doubled, (0..16).map(|x| x * 2).collect::<Vec<i32>>());
}

#[test]
fn map_at_a_position_changes_that_position_only() {
    let r = (1, String::from("a"), true).map1(|mut s| {
        s.push('!');
        s
    });
    assert_eq!(r, (1, String::from("a!"), true));
}

#[test]
fn map_at_each_position_of_three() {
    let t = (1u8, "a", true);
    assert_eq!(t.map0(|x| x as u32 + 1), (2u32, "a", true));
    assert_eq!(t.map1(|s| s.len()), (1u8, 1usize, true));
    assert_eq!(t.map2(|b| !b), (1u8, "a", false));
}

#[test]
fn map_at_each_position_of_two() {
    let t = (1, 2.5);
    assert_eq!(t.map0(|x| x.to_string()), (String::from("1"), 2.5));
    assert_eq!(t.map1(|x| x > 2.0), (1, true));
}

#[test]
fn map_at_positions_of_sixteen() {
    let first = sixteen().map0(|x| x as u32 + 1000);
    assert_eq!(first.0, 1001u32);
    assert_eq!(first.1, 2u16);
    assert_eq!(first.15, Some(16));

    let middle = sixteen().map8(|b| if b { "yes" } else { "no" });
    assert_eq!(middle.7, -8);
    assert_eq!(middle.8, "yes");
    assert_eq!(middle.9, 'j');

    let last = sixteen().map15(|o| o.unwrap_or(0) as u64 + 1);
    assert_eq!(last.0, 1);
    assert_eq!(last.11, "l");
    assert_eq!(last.14, ());
    assert_eq!(last.15, 17u64);
}

#[test]
fn map_at_a_position_calls_the_function_once() {
    let mut calls = 0;
    let r = (1, 2, 3).map2(|x| {
        calls += 1;
        x * 10
    });
    assert_eq!(r, (1, 2, 30));
    assert_eq!(calls, 1);
}
