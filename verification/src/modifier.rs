//! Values that can be read and never changed.

use vstd::prelude::*;

verus! {

/// A value that is set once, when it is wrapped, and can only be read from
/// then on.
#[derive(Debug, PartialEq)]
pub struct Immutable<T>(T);

impl<T> View for Immutable<T> {
    type V = T;

    closed spec fn view(&self) -> T {
        self.0
    }
}

impl<T> Immutable<T> {
    /// Wraps a value.
    pub fn new(value: T) -> (wrapped: Self)
        ensures
            wrapped@ == value,
    {
        Self(value)
    }

    /// The value that was wrapped.
    pub fn get(&self) -> (value: &T)
        ensures
            *value == self@,
    {
        &self.0
    }
}

} // verus!
