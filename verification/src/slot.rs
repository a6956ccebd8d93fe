//! A storage place that is either filled with a value or vacant.

use vstd::prelude::*;
use vstd::pervasive::unreached;

verus! {

/// A place for one `T` that says whether it is filled.
///
/// A slot owns the value it holds. Moving the value out leaves the slot
/// vacant, so a value leaves a slot once and is released once.
pub enum Slot<T> {
    /// The slot holds a value.
    Present(T),
    /// The slot holds nothing.
    Empty,
}

impl<T> Slot<T> {
    /// Whether the slot holds a value.
    pub open spec fn spec_is_present(&self) -> bool {
        self is Present
    }

    /// The value in a filled slot.
    pub open spec fn content(self) -> T
        recommends
            self is Present,
    {
        self->Present_0
    }

    /// A slot filled with `value`.
    pub fn new(value: T) -> (slot: Slot<T>)
        ensures
            slot == Slot::Present(value),
    {
        Slot::Present(value)
    }

    /// A vacant slot.
    pub fn empty() -> (slot: Slot<T>)
        ensures
            slot == Slot::<T>::Empty,
    {
        Slot::Empty
    }

    /// Whether the slot holds a value.
    #[verifier::when_used_as_spec(spec_is_present)]
    pub fn is_present(&self) -> (b: bool)
        ensures
            b == (self is Present),
    {
        match self {
            Slot::Present(_) => true,
            Slot::Empty => false,
        }
    }

    /// The value of a filled slot, borrowed.
    pub fn get(&self) -> (value: &T)
        requires
            self.is_present(),
        ensures
            *value == self.content(),
    {
        match self {
            Slot::Present(value) => value,
            Slot::Empty => unreached(),
        }
    }

    /// The value of a filled slot, borrowed for change. The slot stays filled
    /// and holds whatever the borrower leaves behind.
    pub fn get_mut(&mut self) -> (value: &mut T)
        requires
            old(self).is_present(),
        ensures
            *value == old(self).content(),
            *final(self) == Slot::Present(*final(value)),
    {
        match self {
            Slot::Present(value) => value,
            Slot::Empty => unreached(),
        }
    }

    /// Moves the value out of a filled slot and leaves the slot vacant.
    pub fn take(&mut self) -> (value: T)
        requires
            old(self).is_present(),
        ensures
            value == old(self).content(),
            *final(self) == Slot::<T>::Empty,
    {
        let mut moved = Slot::Empty;
        std::mem::swap(self, &mut moved);
        moved.into_value()
    }

    /// Puts `value` into a vacant slot.
    pub fn fill(&mut self, value: T)
        requires
            !old(self).is_present(),
        ensures
            *final(self) == Slot::Present(value),
    {
        *self = Slot::Present(value);
    }

    /// Ends a filled slot and hands out its value.
    pub fn into_value(self) -> (value: T)
        requires
            self.is_present(),
        ensures
            value == self.content(),
    {
        match self {
            Slot::Present(value) => value,
            Slot::Empty => unreached(),
        }
    }
}

} // verus!
