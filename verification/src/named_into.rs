//! Conversions by name, for use in a chain of calls.

use core::time::Duration;
use std::rc::Rc;
use std::sync::Arc;
use vstd::prelude::*;

verus! {

/// Puts the value in a `Box`.
pub trait IntoBox: Sized {
    fn boxed(self) -> (r: Box<Self>)
        ensures
            *r == self,
    {
        Box::new(self)
    }
}

impl<T> IntoBox for T {
}

/// Puts the value in an `Rc`.
pub trait IntoRc: Sized {
    fn rc(self) -> (r: Rc<Self>)
        ensures
            *r == self,
    {
        Rc::new(self)
    }
}

impl<T> IntoRc for T {
}

/// Puts the value in an `Arc`.
pub trait IntoArc: Sized {
    fn arc(self) -> (r: Arc<Self>)
        ensures
            *r == self,
    {
        Arc::new(self)
    }
}

impl<T> IntoArc for T {
}

/// Wraps the value in `Some`.
pub trait IntoSome: Sized {
    fn some(self) -> (r: Option<Self>)
        ensures
            r == Some(self),
    {
        Some(self)
    }
}

impl<T> IntoSome for T {
}

/// Wraps the value in `Ok`.
pub trait IntoOk<E>: Sized {
    fn ok(self) -> (r: Result<Self, E>)
        ensures
            r == Ok::<Self, E>(self),
    {
        Ok(self)
    }
}

impl<T, E> IntoOk<E> for T {
}

/// Wraps the value in `Err`.
pub trait IntoErr<T>: Sized {
    fn err(self) -> (r: Result<T, Self>)
        ensures
            r == Err::<T, Self>(self),
    {
        Err(self)
    }
}

impl<T, E> IntoErr<T> for E {
}

/// The length of a span of time in nanoseconds: what std's
/// `Duration::as_nanos` returns for it.
pub uninterp spec fn total_nanos(d: Duration) -> nat;

/// std's `Duration::from_secs`. Believed, not proved: the span it returns
/// is `secs` whole seconds long, that is `secs` times 10^9 nanoseconds.
pub assume_specification[ Duration::from_secs ](secs: u64) -> (d: Duration)
    ensures
        total_nanos(d) == secs * 1_000_000_000,
;

/// std's `Duration::from_millis`. Believed, not proved: the span it returns
/// is `millis` milliseconds long, that is `millis` times 10^6 nanoseconds.
pub assume_specification[ Duration::from_millis ](millis: u64) -> (d: Duration)
    ensures
        total_nanos(d) == millis * 1_000_000,
;

/// std's `Duration::from_micros`. Believed, not proved: the span it returns
/// is `micros` microseconds long, that is `micros` times 10^3 nanoseconds.
pub assume_specification[ Duration::from_micros ](micros: u64) -> (d: Duration)
    ensures
        total_nanos(d) == micros * 1_000,
;

/// std's `Duration::from_nanos`. Believed, not proved: the span it returns
/// is `nanos` nanoseconds long.
pub assume_specification[ Duration::from_nanos ](nanos: u64) -> (d: Duration)
    ensures
        total_nanos(d) == nanos,
;

/// A number read as a span of time.
pub trait IntoDuration {
    /// The number that `self` stands for.
    spec fn count(self) -> nat;

    /// As many seconds.
    fn secs(self) -> (d: Duration)
        ensures
            total_nanos(d) == self.count() * 1_000_000_000,
    ;

    /// As many milliseconds.
    fn millis(self) -> (d: Duration)
        ensures
            total_nanos(d) == self.count() * 1_000_000,
    ;

    /// As many microseconds.
    fn micros(self) -> (d: Duration)
        ensures
            total_nanos(d) == self.count() * 1_000,
    ;

    /// As many nanoseconds.
    fn nanos(self) -> (d: Duration)
        ensures
            total_nanos(d) == self.count(),
    ;
}

impl IntoDuration for u64 {
    open spec fn count(self) -> nat {
        self as nat
    }

    fn secs(self) -> (d: Duration) {
        Duration::from_secs(self)
    }

    fn millis(self) -> (d: Duration) {
        Duration::from_millis(self)
    }

    fn micros(self) -> (d: Duration) {
        Duration::from_micros(self)
    }

    fn nanos(self) -> (d: Duration) {
        Duration::from_nanos(self)
    }
}

/// An option read as a result, with the default error in place of `None`.
pub trait ToOk<E: Default> {
    type T;

    /// What is in the option, if anything.
    spec fn held(self) -> Option<Self::T>;

    /// `Ok` of what is in `Some`; for `None`, `Err` of a default value of
    /// `E`.
    fn to_ok(self) -> (r: Result<Self::T, E>)
        ensures
            self.held() matches Some(v) ==> r == Ok::<Self::T, E>(v),
            self.held() is None ==> r is Err && call_ensures(E::default, (), r->Err_0),
    ;
}

impl<T, E: Default> ToOk<E> for Option<T> {
    type T = T;

    open spec fn held(self) -> Option<T> {
        self
    }

    fn to_ok(self) -> (r: Result<T, E>) {
        match self {
            Some(v) => Ok(v),
            None => Err(E::default()),
        }
    }
}

/// An option read as a result, with the default value in place of `None`.
pub trait ToErr<T: Default> {
    type E;

    /// What is in the option, if anything.
    spec fn held(self) -> Option<Self::E>;

    /// `Err` of what is in `Some`; for `None`, `Ok` of a default value of
    /// `T`.
    fn to_err(self) -> (r: Result<T, Self::E>)
        ensures
            self.held() matches Some(v) ==> r == Err::<T, Self::E>(v),
            self.held() is None ==> r is Ok && call_ensures(T::default, (), r->Ok_0),
    ;
}

impl<T: Default, E> ToErr<T> for Option<E> {
    type E = E;

    open spec fn held(self) -> Option<E> {
        self
    }

    fn to_err(self) -> (r: Result<T, E>) {
        match self {
            Some(v) => Err(v),
            None => Ok(T::default()),
        }
    }
}

} // verus!
