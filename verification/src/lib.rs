//! Heterogenous lists and their rendering as text.
//!
//! A [`HeterogenousList`] holds a fixed number of elements, each of a type of
//! its own, as a head and a tail that is either a further list or the
//! [`ListTerminator`]. A list always has at least one element.
//!
//! * `display`: rendering of a list whose elements all have a text, as
//!   `first, second, third`.
//! * `printable`: the elements that have a text.
//! * `sink`: where rendered text is written to, piece by piece.
//! * `join`: joining texts with the separator, and pieces into a text.
//! * `decimal`: decimal notation of integers.

use vstd::prelude::*;

pub mod decimal;
pub mod display;
pub mod join;
pub mod printable;
pub mod sink;
mod strings;

verus! {

/// A recursively-defined non-empty heterogenous list.
#[derive(Debug, Clone, Copy, Default, PartialEq, Eq, PartialOrd, Ord, Hash)]
pub struct HeterogenousList<Head, Tail> {
    /// First element of the list.
    pub head: Head,
    /// Rest elements of the list.
    pub tail: Tail,
}

/// Terminating entry of a heterogenous list.
#[derive(Debug, Clone, Copy, Default, PartialEq, Eq, PartialOrd, Ord, Hash)]
pub struct ListTerminator;

impl<Head> HeterogenousList<Head, ListTerminator> {
    /// The list of one element.
    pub fn single(head: Head) -> (list: Self)
        ensures
            list == (HeterogenousList { head, tail: ListTerminator }),
    {
        HeterogenousList { head, tail: ListTerminator }
    }
}

impl<Head, Tail> HeterogenousList<Head, Tail> {
    /// The list with `head` put in front of the elements of this one.
    pub fn prepend<First>(self, head: First) -> (list: HeterogenousList<First, Self>)
        ensures
            list == (HeterogenousList { head, tail: self }),
    {
        HeterogenousList { head, tail: self }
    }
}

} // verus!
