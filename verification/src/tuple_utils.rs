//! What tuples have in common: their size, the items of a tuple whose
//! positions all hold one type, and views of a tuple as a tuple of
//! references.

pub mod size2;
pub mod size3;
pub mod size4;
pub mod size5;
pub mod size6;
pub mod size7;
pub mod size8;
pub mod size9;
pub mod size10;
pub mod size11;
pub mod size12;
pub mod size13;
pub mod size14;
pub mod size15;
pub mod size16;
pub mod size17;
pub mod size18;
pub mod size19;
pub mod size20;
pub mod size21;
pub mod size22;
pub mod size23;
pub mod size24;
pub mod size25;
pub mod size26;
pub mod size27;
pub mod size28;
pub mod size29;
pub mod size30;
pub mod size31;
pub mod size32;

pub use crate::tuple_utils::size2::{Same2, Tuple2Map, Tuple2MapAt};
pub use crate::tuple_utils::size3::{Same3, Tuple3Map, Tuple3MapAt};
pub use crate::tuple_utils::size4::{Same4, Tuple4Map, Tuple4MapAt};
pub use crate::tuple_utils::size5::{Same5, Tuple5Map, Tuple5MapAt};
pub use crate::tuple_utils::size6::{Same6, Tuple6Map, Tuple6MapAt};
pub use crate::tuple_utils::size7::{Same7, Tuple7Map, Tuple7MapAt};
pub use crate::tuple_utils::size8::{Same8, Tuple8Map, Tuple8MapAt};
pub use crate::tuple_utils::size9::{Same9, Tuple9Map, Tuple9MapAt};
pub use crate::tuple_utils::size10::{Same10, Tuple10Map, Tuple10MapAt};
pub use crate::tuple_utils::size11::{Same11, Tuple11Map, Tuple11MapAt};
pub use crate::tuple_utils::size12::{Same12, Tuple12Map, Tuple12MapAt};
pub use crate::tuple_utils::size13::{Same13, Tuple13Map, Tuple13MapAt};
pub use crate::tuple_utils::size14::{Same14, Tuple14Map, Tuple14MapAt};
pub use crate::tuple_utils::size15::{Same15, Tuple15Map, Tuple15MapAt};
pub use crate::tuple_utils::size16::{Same16, Tuple16Map, Tuple16MapAt};
pub use crate::tuple_utils::size17::Same17;
pub use crate::tuple_utils::size18::Same18;
pub use crate::tuple_utils::size19::Same19;
pub use crate::tuple_utils::size20::Same20;
pub use crate::tuple_utils::size21::Same21;
pub use crate::tuple_utils::size22::Same22;
pub use crate::tuple_utils::size23::Same23;
pub use crate::tuple_utils::size24::Same24;
pub use crate::tuple_utils::size25::Same25;
pub use crate::tuple_utils::size26::Same26;
pub use crate::tuple_utils::size27::Same27;
pub use crate::tuple_utils::size28::Same28;
pub use crate::tuple_utils::size29::Same29;
pub use crate::tuple_utils::size30::Same30;
pub use crate::tuple_utils::size31::Same31;
pub use crate::tuple_utils::size32::Same32;
use vstd::prelude::*;

verus! {

/// A tuple.
pub trait Tuple {
    /// The number of positions.
    spec fn arity() -> nat;

    /// The number of positions.
    fn size(&self) -> (n: usize)
        ensures
            n == Self::arity(),
    ;
}

/// A tuple whose positions all hold the type `T`.
pub trait TupleSame<T>: Tuple + Sized {
    /// The items, in positional order.
    spec fn items(&self) -> Seq<T>;

    /// The tuple whose positions hold the first items of `items`, in order.
    spec fn of_items(items: Seq<T>) -> Self;

    /// There is one item for each position.
    proof fn lemma_items_len(&self)
        ensures
            self.items().len() == Self::arity(),
    ;

    /// A tuple is the tuple of its items.
    proof fn lemma_of_items(&self)
        ensures
            Self::of_items(self.items()) == *self,
    ;

    /// The items of the tuple of `items` are `items`.
    proof fn lemma_items_of(items: Seq<T>)
        requires
            items.len() == Self::arity(),
        ensures
            Self::of_items(items).items() == items,
    ;

    /// The item at position `index`, or `None` where the tuple has no such
    /// position.
    fn get(&self, index: usize) -> (r: Option<&T>)
        ensures
            r == (if index < Self::arity() {
                Some(&self.items()[index as int])
            } else {
                None
            }),
    ;
}

/// A view of a tuple as the tuple of references to its positions.
pub trait TupleAsRef<'a> {
    type OutTuple: 'a;

    /// A reference to every position. The tuple is neither consumed nor
    /// changed.
    fn as_ref(&'a self) -> Self::OutTuple;
}

/// A view of a tuple as the tuple of mutable references to its positions.
pub trait TupleAsMut<'a> {
    type OutTuple: 'a;

    /// A mutable reference to every position. What is written through one
    /// of them is written to that position of the tuple and to no other.
    fn as_mut(&'a mut self) -> Self::OutTuple;
}

} // verus!
