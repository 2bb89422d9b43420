use libsugar::chain_drop::Void;
use libsugar::combin::{After, With};
use libsugar::named_into::{
    IntoArc, IntoBox, IntoDuration, IntoErr, IntoOk, IntoRc, IntoSome, ToErr, ToOk,
};
use libsugar::once_get::OnceGet;
use libsugar::side_effect::{Also, AlsoMut, Used};
use std::time::Duration;

#[test]
fn test_combin_tuple() {
    let a: (i32, u8) = 1.with(2u8);
    assert_eq!(a, (1, 2));
}

#[test]
fn test() {
    let mut a = None;
    let b = a.get_or_init(|| 1);
    assert_eq!(*b, 1);
}

#[test]
fn test_fn() {
    let v = 1;
    let v = v.also(|v| assert_eq!(*v, 1));
    assert_eq!(v, 1);
    let mut v = v.used(|v| v + 1);
    assert_eq!(v, 2);
    (&mut v).used(|v| *v = 3);
    assert_eq!(v, 3);
}

#[test]
fn after_puts_the_argument_in_front() {
    let a: (u8, i32) = 1.after(2u8);
    assert_eq!(a, (2, 1));
    let b: (&str, (u8, i32)) = a.after("x");
    assert_eq!(b, ("x", (2, 1)));
}

#[test]
fn with_puts_the_argument_behind() {
    let a: ((i32, u8), &str) = 1.with(2u8).with("x");
    assert_eq!(a, ((1, 2), "x"));
}

#[test]
fn void_takes_any_value() {
    let v = vec![1, 2, 3];
    v.void();
    7.void();
    "x".void();
}

#[test]
fn get_or_init_keeps_what_is_there() {
    let mut a = Some(5);
    let mut calls = 0;
    let b = a.get_or_init(|| {
        calls += 1;
        1
    });
    assert_eq!(*b, 5);
    assert_eq!(a, Some(5));
    assert_eq!(calls, 0);
}

#[test]
fn get_or_init_fills_once() {
    let mut a: Option<String> = None;
    assert_eq!(a.get_or_init(|| String::from("first")), "first");
    assert_eq!(a.get_or_init(|| String::from("second")), "first");
    assert_eq!(a, Some(String::from("first")));
}

#[test]
fn get_mut_or_init_writes_through() {
    let mut a: Option<i32> = None;
    {
        let b = a.get_mut_or_init(|| 1);
        assert_eq!(*b, 1);
        *b += 10;
    }
    assert_eq!(a, Some(11));
    {
        let b = a.get_mut_or_init(|| 100);
        assert_eq!(*b, 11);
        *b = 12;
    }
    assert_eq!(a, Some(12));
}

#[test]
fn used_returns_what_the_function_returns() {
    let v = 1.used(|v| v + 1);
    assert_eq!(v, 2);
    let s = "ab".used(|s| s.len());
    assert_eq!(s, 2);
}

#[test]
fn also_returns_the_value_unchanged() {
    let mut seen = 0;
    let v = 1.also(|v| seen = *v);
    assert_eq!(v, 1);
    assert_eq!(seen, 1);
}

#[test]
fn also_mut_returns_the_value_as_changed() {
    let v = 1.also_mut(|v| *v += 1);
    assert_eq!(v, 2);
    let w = vec![1].also_mut(|w| w.push(2));
    assert_eq!(w, vec![1, 2]);
}

#[test]
fn named_wrappers() {
    assert_eq!(1.some().some(), Some(Some(1)));
    assert_eq!(*1.boxed(), 1);
    assert_eq!(*2.rc(), 2);
    assert_eq!(*3.arc(), 3);
    let ok: Result<i32, ()> = 1.ok();
    assert_eq!(ok, Ok(1));
    let err: Result<(), i32> = 1.err();
    assert_eq!(err, Err(1));
}

#[test]
fn to_ok_and_to_err() {
    let a: Result<i32, u8> = Some(1).to_ok();
    assert_eq!(a, Ok(1));
    let b: Result<i32, u8> = None.to_ok();
    assert_eq!(b, Err(0));
    let c: Result<String, i32> = Some(1).to_err();
    assert_eq!(c, Err(1));
    let d: Result<String, i32> = None.to_err();
    assert_eq!(d, Ok(String::new()));
}

#[test]
fn durations_by_unit() {
    assert_eq!(5u64.secs(), Duration::from_secs(5));
    assert_eq!(5u64.secs().as_nanos(), 5_000_000_000);
    assert_eq!(5u64.millis().as_nanos(), 5_000_000);
    assert_eq!(5u64.micros().as_nanos(), 5_000);
    assert_eq!(5u64.nanos().as_nanos(), 5);
    assert_eq!(1500u64.millis(), Duration::new(1, 500_000_000));
    assert_eq!(0u64.secs(), Duration::ZERO);
    assert_eq!(u64::MAX.nanos().as_nanos(), u64::MAX as u128);
    assert_eq!(u64::MAX.secs().as_secs(), u64::MAX);
    assert_eq!(u64::MAX.millis().as_nanos(), u64::MAX as u128 * 1_000_000);
    assert_eq!(u64::MAX.micros().as_nanos(), u64::MAX as u128 * 1_000);
}
