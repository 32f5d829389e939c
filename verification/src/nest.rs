//! Nesting depth of a collection.
//!
//! Each node sits one level above its tail; the unit type, the terminal of
//! every chain, has depth zero.  The depth of a collection's head node equals
//! the number of elements the collection holds.

use vstd::prelude::*;

use crate::composite::{Composite, NextNode, Node};

verus! {

/// The nesting depth of a tail type: zero for the unit type, one more than
/// the tail's depth for a node.
pub trait NestLevel {
    /// The depth as a mathematical number, free of machine limits.
    spec fn spec_nest_level(&self) -> nat;

    /// The nesting depth of this value.
    fn nest_level(&self) -> (r: usize)
        requires
            self.spec_nest_level() <= usize::MAX,
        ensures
            r == self.spec_nest_level(),
    ;
}

impl NestLevel for () {
    open spec fn spec_nest_level(&self) -> nat {
        0
    }

    #[inline]
    fn nest_level(&self) -> (r: usize) {
        0
    }
}

impl<A, B: NextNode + NestLevel> NestLevel for Node<A, B> {
    open spec fn spec_nest_level(&self) -> nat {
        self.next.spec_nest_level() + 1
    }

    fn nest_level(&self) -> (r: usize) {
        self.next.nest_level() + 1
    }
}

impl<A: NextNode + NestLevel> Composite<A> {
    /// The number of elements in the collection: the nesting depth of its
    /// head.
    pub fn len(&self) -> (r: usize)
        requires
            self.head.spec_nest_level() <= usize::MAX,
        ensures
            r == self.head.spec_nest_level(),
    {
        self.head.nest_level()
    }
}

} // verus!
