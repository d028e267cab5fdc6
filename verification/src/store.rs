//! The place in a request's extension store that belongs to one type.

use vstd::prelude::*;

verus! {

/// A request's extension store as seen at the type `T`: it holds at most one
/// value of that type. A request owns one slot for each type, so a value
/// filed under `T` can only be read back as a `T`.
pub struct Slot<T> {
    value: Option<T>,
}

impl<T> View for Slot<T> {
    type V = Option<T>;

    closed spec fn view(&self) -> Option<T> {
        self.value
    }
}

/// What a lookup hands out for a slot that holds `stored`.
pub open spec fn found<T>(stored: &Option<T>) -> Option<&T> {
    match stored {
        Some(value) => Some(value),
        None => None,
    }
}

impl<T> Slot<T> {
    /// The slot of a request in which nothing of type `T` was stored yet.
    pub fn new() -> (slot: Slot<T>)
        ensures
            slot@ is None,
    {
        Slot { value: None }
    }

    /// Stores `value`, in place of what the slot held. Returns whether the
    /// slot was empty before.
    pub fn insert(&mut self, value: T) -> (fresh: bool)
        ensures
            final(self)@ == Some(value),
            fresh == (old(self)@ is None),
    {
        let fresh = self.value.is_none();
        self.value = Some(value);
        fresh
    }

    /// The stored value, if there is one.
    pub fn find(&self) -> (value: Option<&T>)
        ensures
            value == found(&self@),
    {
        self.value.as_ref()
    }
}

} // verus!
