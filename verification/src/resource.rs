//! Handler parameters for resource and sequence access.
use vstd::prelude::*;
use crate::world::{Sequence, next_seq};

verus! {

/// Shared access to a resource value.
pub struct Res<'w, T> {
    value: &'w T,
}

impl<'w, T> Res<'w, T> {
    /// The value read.
    pub closed spec fn value(&self) -> T {
        *self.value
    }

    /// Borrow `value`.
    pub fn new(value: &'w T) -> (r: Res<'w, T>)
        ensures r.value() == *value,
    {
        Res { value }
    }

    /// The resource value.
    pub fn get(&self) -> (r: &T)
        ensures *r == self.value(),
    {
        self.value
    }
}

impl<'w, T> std::ops::Deref for Res<'w, T> {
    type Target = T;

    fn deref(&self) -> (r: &T)
        ensures *r == self.value(),
    {
        self.value
    }
}

/// Exclusive access to a resource value.
pub struct ResMut<'w, T> {
    /// The borrowed value.
    pub value: &'w mut T,
}

impl<'w, T> ResMut<'w, T> {
    /// Borrow `value` exclusively.
    pub fn new(value: &'w mut T) -> (r: ResMut<'w, T>)
        ensures *r.value == *old(value),
    {
        ResMut { value }
    }

    /// The resource value.
    pub fn get(&self) -> (r: &T)
        ensures *r == *old(self.value),
    {
        self.value
    }

    /// Overwrite the resource value.
    pub fn set(&mut self, v: T)
        ensures *final(self).value == v,
    {
        *self.value = v;
    }
}

/// Read access to the world's current sequence number.
#[derive(Clone, Copy, PartialEq, Eq, Structural, Debug)]
pub struct SeqRead(pub Sequence);

impl SeqRead {
    /// The current sequence value.
    pub fn get(self) -> (r: i64)
        ensures r == self.0.0,
    {
        self.0.get()
    }
}

/// Mutable access to the world's current sequence number.
pub struct SeqMut<'w>(pub &'w mut Sequence);

impl<'w> SeqMut<'w> {
    /// The current sequence value.
    pub fn get(&self) -> (r: Sequence)
        ensures r == *old(self.0),
    {
        *self.0
    }

    /// Advance the sequence by one (wrapping) and return the new value.
    pub fn advance(&mut self) -> (r: Sequence)
        ensures r.0 == next_seq((*old(self).0).0), *final(self).0 == r,
    {
        let next = self.0.next();
        *self.0 = next;
        next
    }
}

} // verus!
