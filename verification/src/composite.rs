//! The compile-time list of heterogeneous elements.
//!
//! A collection of objects is built as a chain of [`Node`] values whose `next`
//! fields nest one level deeper at each step, terminated by the unit type.
//! The [`NextNode`] marker identifies exactly the types that may stand in a
//! tail position.  A [`Composite`] wraps the outermost node (or the unit type,
//! for an empty collection) so that iteration traits can be implemented for
//! the collection as a whole.

use vstd::prelude::*;

verus! {

/// Marker for types that can be nested in a node's `next` field or a
/// composite's `head` field: the unit type, or a node whose own tail is again
/// such a type.
pub trait NextNode {}

/// A collection of one or more objects: one element in `data`, the rest of
/// the collection in `next`.
#[derive(Debug, PartialEq)]
pub struct Node<A, B: NextNode> {
    /// The object held at this level.
    pub data: A,
    /// The remainder of the collection: another node, or the unit type.
    pub next: B,
}

impl NextNode for () {}

impl<A, B: NextNode> NextNode for Node<A, B> {}

/// A collection of zero or more objects, wrapping the outermost node.
#[derive(Debug, PartialEq)]
pub struct Composite<A: NextNode> {
    /// The first node of the collection, or the unit type when it is empty.
    pub head: A,
}

impl<A: NextNode> Composite<A> {
    /// Wraps a chain of nodes (or the unit type) as a collection.
    pub fn new(head: A) -> (r: Self)
        ensures
            r.head == head,
    {
        Self { head }
    }
}

impl<A, B: NextNode> Node<A, B> {
    /// Builds a node holding `data` with `next` as the rest of the collection.
    pub fn new(data: A, next: B) -> (r: Self)
        ensures
            r.data == data,
            r.next == next,
    {
        Self { data, next }
    }
}

impl<A> Node<A, ()> {
    /// Builds the innermost node of a collection: its tail is the unit type.
    pub fn base(data: A) -> (r: Self)
        ensures
            r.data == data,
    {
        Self { data, next: () }
    }
}

} // verus!
