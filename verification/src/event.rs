//! Event buffers: producers append, consumers drain or read in order.
use vstd::prelude::*;
use vstd::std_specs::iter::IteratorSpec;

verus! {

/// A buffer of events of type `T`, kept in the order they were sent.
pub struct Events<T> {
    buffer: Vec<T>,
}

impl<T> View for Events<T> {
    type V = Seq<T>;

    closed spec fn view(&self) -> Seq<T> {
        self.buffer@
    }
}

impl<T> Events<T> {
    /// An empty buffer.
    pub fn new() -> (r: Events<T>)
        ensures r@ == Seq::<T>::empty(),
    {
        Events { buffer: Vec::new() }
    }

    /// Append an event.
    pub fn send(&mut self, event: T)
        ensures final(self)@ == old(self)@.push(event),
    {
        self.buffer.push(event);
    }

    /// Take all events, in the order sent; the buffer is left empty.
    pub fn drain(&mut self) -> (r: Vec<T>)
        ensures r@ == old(self)@, final(self)@ == Seq::<T>::empty(),
    {
        let mut out: Vec<T> = Vec::new();
        std::mem::swap(&mut out, &mut self.buffer);
        out
    }

    /// Drop all events.
    pub fn clear(&mut self)
        ensures final(self)@ == Seq::<T>::empty(),
    {
        self.buffer.clear();
    }

    /// The events, in the order sent.
    pub fn as_slice(&self) -> (r: &[T])
        ensures r@ == self@,
    {
        self.buffer.as_slice()
    }

    /// Iterate the events by reference, in the order sent.
    pub fn iter(&self) -> (r: std::slice::Iter<'_, T>)
        ensures r.remaining() == self@.as_ref(),
    {
        let sl = self.buffer.as_slice();
        let r = sl.iter();
        proof {
            vstd::std_specs::slice::axiom_spec_slice_iter(sl);
        }
        r
    }

    /// Number of buffered events.
    pub fn len(&self) -> (r: usize)
        ensures r == self@.len(),
    {
        self.buffer.len()
    }

    /// Whether no event is buffered.
    pub fn is_empty(&self) -> (r: bool)
        ensures r == (self@.len() == 0),
    {
        self.buffer.len() == 0
    }
}

impl<T> Default for Events<T> {
    fn default() -> (r: Events<T>)
        ensures r@ == Seq::<T>::empty(),
    {
        Events::new()
    }
}

/// Write access to an event buffer (a handler parameter).
pub struct EventWriter<'w, T> {
    /// The buffer written.
    pub events: &'w mut Events<T>,
}

impl<'w, T> EventWriter<'w, T> {
    /// Append an event to the buffer.
    pub fn send(&mut self, event: T)
        ensures (*final(self).events)@ == (*old(self).events)@.push(event),
    {
        self.events.send(event);
    }
}

/// Read access to an event buffer (a handler parameter).
pub struct EventReader<'w, T> {
    /// The buffer read.
    pub events: &'w Events<T>,
}

impl<'w, T> EventReader<'w, T> {
    /// Iterate the buffered events by reference, in the order sent.
    pub fn iter(&self) -> (r: std::slice::Iter<'_, T>)
        ensures r.remaining() == self.events@.as_ref(),
    {
        self.events.iter()
    }

    /// Whether the buffer is empty.
    pub fn is_empty(&self) -> (r: bool)
        ensures r == (self.events@.len() == 0),
    {
        self.events.is_empty()
    }

    /// Number of buffered events.
    pub fn len(&self) -> (r: usize)
        ensures r == self.events@.len(),
    {
        self.events.len()
    }
}

} // verus!
