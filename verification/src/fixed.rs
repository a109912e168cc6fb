//! A slot that keeps its value at one place, and the two kinds of handle
//! through which the value is reached afterwards.
//!
//! The value lives in its own heap cell from [`fix`] until the slot is
//! dropped. Moving the slot moves the pointer to that cell, never the value.
//! No handle gives out the value or a bare `&mut` to it, so safe code outside
//! this crate cannot swap it away: it can read it, and it can overwrite it in
//! place.

use vstd::prelude::*;

verus! {

/// Owns a value at a fixed place.
pub struct FixedSlot<T> {
    value: Box<T>,
}

/// A read-only handle on the value of a [`FixedSlot`].
pub struct Fixed<'a, T> {
    target: &'a T,
}

/// The exclusive handle on the value of a [`FixedSlot`].
///
/// The borrow checker admits one such handle at a time, and no [`Fixed`]
/// beside it. The field is public so that contracts can name the value the
/// slot holds once the handle is given up: `final(handle.slot)@`.
pub struct FixedMut<'a, T> {
    pub slot: &'a mut FixedSlot<T>,
}

impl<T> View for FixedSlot<T> {
    type V = T;

    /// The value held.
    closed spec fn view(&self) -> T {
        *self.value
    }
}

impl<'a, T> View for Fixed<'a, T> {
    type V = T;

    /// The value the handle shows.
    closed spec fn view(&self) -> T {
        *self.target
    }
}

impl<'a, T> View for FixedMut<'a, T> {
    type V = T;

    /// The value the slot holds now.
    open spec fn view(&self) -> T {
        self.slot@
    }
}

/// Takes `value` and puts it at a place of its own.
pub fn fix<T>(value: T) -> (slot: FixedSlot<T>)
    ensures
        slot@ == value,
{
    FixedSlot { value: Box::new(value) }
}

impl<T> FixedSlot<T> {
    /// A read-only handle on the value.
    pub fn as_immutable(&self) -> (handle: Fixed<'_, T>)
        ensures
            handle@ == self@,
    {
        Fixed { target: &*self.value }
    }

    /// The exclusive handle on the value. What the slot holds when the
    /// handle is given up is what was last written through the handle.
    pub fn as_mutable(&mut self) -> (handle: FixedMut<'_, T>)
        ensures
            handle@ == old(self)@,
            final(handle.slot)@ == final(self)@,
    {
        FixedMut { slot: self }
    }
}

impl<'a, T> Fixed<'a, T> {
    /// The value, for reading.
    pub fn get(self) -> (value: &'a T)
        ensures
            *value == self@,
    {
        self.target
    }
}

impl<'a, T> FixedMut<'a, T> {
    /// A read-only handle on the same value, for as long as this handle is
    /// not used.
    pub fn as_immutable(&self) -> (handle: Fixed<'_, T>)
        ensures
            handle@ == self@,
    {
        Fixed { target: &*self.slot.value }
    }

    /// Overwrites the value in place and gives the handle up.
    pub fn set(self, value: T)
        ensures
            final(self.slot)@ == value,
    {
        *self.slot.value = value;
    }

    /// The bare reference behind the handle. Through it the value could be
    /// swapped away, so only this crate's own capabilities may have it.
    pub(crate) fn get_mut(self) -> (value: &'a mut T)
        ensures
            *value == self@,
            *final(value) == final(self.slot)@,
    {
        &mut *self.slot.value
    }
}

} // verus!
