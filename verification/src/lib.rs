//! Sugar for tuples and chained calls: positional iteration over tuples by
//! reference and by value, tuples built from sequences, positional views and
//! maps, and a handful of chaining helpers.

pub mod arity;
pub mod chain_drop;
pub mod combin;
pub mod cursor;
pub mod named_into;
pub mod once_get;
pub mod side_effect;
pub mod tuple_iter;
pub mod tuple_utils;

pub use crate::combin::{After, With};
pub use crate::named_into::{
    IntoArc, IntoBox, IntoDuration, IntoErr, IntoOk, IntoRc, IntoSome, ToErr, ToOk,
};
pub use crate::side_effect::{Also, AlsoMut, Used};
