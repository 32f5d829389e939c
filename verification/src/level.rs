//! A typed wrapper around an element index.
//!
//! The generated `..._at_level` methods take a position argument of the same
//! shape as many ordinary method arguments (`usize`).  Wrapping the position
//! in a [`Level`] tied to the collection's type keeps callers from swapping it
//! with another integer argument, and from reusing a position obtained from
//! one collection on a collection of a different shape.

use vstd::prelude::*;

verus! {

/// The position of an element within a collection, counted from the first
/// composed element.
#[derive(Debug, PartialEq)]
pub struct Level<T> {
    /// The index of the target element.
    value: usize,
    phantom: std::marker::PhantomData<T>,
}

impl<T> Level<T> {
    /// The index this level stands for.
    pub closed spec fn spec_value(&self) -> usize {
        self.value
    }

    /// Wraps an element index.
    pub fn new(value: usize) -> (r: Self)
        ensures
            r.spec_value() == value,
    {
        Self { value, phantom: std::marker::PhantomData }
    }

    /// The wrapped element index.
    pub fn value(&self) -> (r: usize)
        ensures
            r == self.spec_value(),
    {
        self.value
    }
}

impl<T> Clone for Level<T> {
    fn clone(&self) -> (r: Self)
        ensures
            r.spec_value() == self.spec_value(),
    {
        Level { value: self.value, phantom: std::marker::PhantomData }
    }
}

} // verus!
