//! One item or collection of items for types.
//!
//! This is a common construction in the compiler when a singleton or a
//! collection of items of a specific type must be described.

use vstd::prelude::*;

verus! {

/// One item or a collection of items of the inner type.
#[derive(Debug, Clone)]
pub enum OneOrCollection<T> {
    /// A single item.
    One(T),
    /// A collection of items.
    Collection(T),
}

impl<T> OneOrCollection<T> {
    /// Inner value, whichever shape the container has.
    pub fn inner(&self) -> (r: &T)
        ensures
            self matches OneOrCollection::One(v) ==> r == v,
            self matches OneOrCollection::Collection(v) ==> r == v,
    {
        match self {
            OneOrCollection::One(v) => v,
            OneOrCollection::Collection(v) => v,
        }
    }

    /// Map the inner value with `f`, preserving the shape.
    pub fn map<F: FnOnce(T) -> R, R>(self, f: F) -> (r: OneOrCollection<R>)
        requires
            self matches OneOrCollection::One(v) ==> call_requires(f, (v,)),
            self matches OneOrCollection::Collection(v) ==> call_requires(f, (v,)),
        ensures
            self matches OneOrCollection::One(v) ==> (r matches OneOrCollection::One(w)
                && call_ensures(f, (v,), w)),
            self matches OneOrCollection::Collection(v) ==> (r matches OneOrCollection::Collection(
            w) && call_ensures(f, (v,), w)),
    {
        match self {
            OneOrCollection::One(v) => OneOrCollection::One(f(v)),
            OneOrCollection::Collection(v) => OneOrCollection::Collection(f(v)),
        }
    }

    /// Borrow the inner value, preserving the shape.
    pub fn as_ref(&self) -> (r: OneOrCollection<&T>)
        ensures
            self matches OneOrCollection::One(v) ==> (r matches OneOrCollection::One(w) && w == v),
            self matches OneOrCollection::Collection(v) ==> (r matches OneOrCollection::Collection(
            w) && w == v),
    {
        match self {
            OneOrCollection::One(v) => OneOrCollection::One(v),
            OneOrCollection::Collection(v) => OneOrCollection::Collection(v),
        }
    }
}

} // verus!
