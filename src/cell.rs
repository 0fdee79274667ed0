//! Single-assignment and discardable resource containers.

use vstd::prelude::*;

verus! {

/// A container that is written at most once and read only after it was written.
pub struct LazyCell<T> {
    value: Option<T>,
}

impl<T> View for LazyCell<T> {
    type V = Option<T>;

    closed spec fn view(&self) -> Option<T> {
        self.value
    }
}

impl<T> LazyCell<T> {
    /// An empty cell.
    pub fn new() -> (r: Self)
        ensures
            r@ is None,
    {
        LazyCell { value: None }
    }

    /// Stores `v`. Writing a cell twice is a programming error, ruled out by the precondition.
    pub fn init(&mut self, v: T)
        requires
            old(self)@ is None,
        ensures
            final(self)@ == Some(v),
    {
        self.value = Some(v);
    }

    /// The stored value; the cell must have been initialised.
    pub fn get(&self) -> (r: &T)
        requires
            self@ is Some,
        ensures
            Some(*r) == self@,
    {
        self.value.as_ref().unwrap()
    }

    /// Whether the cell holds a value.
    pub fn is_present(&self) -> (r: bool)
        ensures
            r == self@ is Some,
    {
        self.value.is_some()
    }
}

/// A container that may be set, read and cleared any number of times.
/// An empty cell means that the resource needs rebuilding.
pub struct DiscardableCell<T> {
    value: Option<T>,
}

impl<T> View for DiscardableCell<T> {
    type V = Option<T>;

    closed spec fn view(&self) -> Option<T> {
        self.value
    }
}

impl<T> DiscardableCell<T> {
    /// An empty cell.
    pub fn new() -> (r: Self)
        ensures
            r@ is None,
    {
        DiscardableCell { value: None }
    }

    /// Stores `v`, replacing any value held before.
    pub fn set(&mut self, v: T)
        ensures
            final(self)@ == Some(v),
    {
        self.value = Some(v);
    }

    /// The stored value; the cell must not be empty.
    pub fn get(&self) -> (r: &T)
        requires
            self@ is Some,
        ensures
            Some(*r) == self@,
    {
        self.value.as_ref().unwrap()
    }

    /// Clears the cell. Clearing an empty cell leaves it empty.
    pub fn discard(&mut self)
        ensures
            final(self)@ is None,
    {
        self.value = None;
    }

    /// Whether the cell is empty.
    pub fn is_discarded(&self) -> (r: bool)
        ensures
            r == self@ is None,
    {
        self.value.is_none()
    }
}

} // verus!
