//! Handler adapters: decode wire events, and convert between owned and
//! borrowed events.
use vstd::prelude::*;
use core::marker::PhantomData;
use std::borrow::ToOwned;
use crate::world::World;
use crate::handler::{Handler, RefHandler};

verus! {

/// Decode a wire event into a typed one and forward it; events that fail
/// to decode (`None`) are dropped.
pub struct Adapt<F, H> {
    /// The decoder.
    pub decode: F,
    /// The handler receiving decoded events.
    pub inner: H,
}

impl<F, H> Adapt<F, H> {
    /// Wrap `inner` behind `decode`.
    pub fn new(decode: F, inner: H) -> (r: Adapt<F, H>)
        ensures r.decode == decode, r.inner == inner,
    {
        Adapt { decode, inner }
    }
}

impl<V, W, T, F: Fn(W) -> Option<T>, H: Handler<V, T>> Handler<V, W> for Adapt<F, H> {
    open spec fn h_pre(&self, w: World<V>, e: W) -> bool {
        &&& call_requires(self.decode, (e,))
        &&& forall|t: T| call_ensures(self.decode, (e,), Some(t)) ==> #[trigger] self.inner.h_pre(w, t)
    }

    open spec fn h_rel(&self, w0: World<V>, e: W, w1: World<V>) -> bool {
        exists|d: Option<T>| #[trigger] call_ensures(self.decode, (e,), d) && match d {
            Some(t) => self.inner.h_rel(w0, t, w1),
            None => w1 == w0,
        }
    }

    fn run(&mut self, world: &mut World<V>, event: W) {
        let ghost e = event;
        let d = (self.decode)(event);
        match d {
            Some(t) => {
                let ghost tt = t;
                assert(self.inner.h_pre(*world, tt));
                self.inner.run(world, t);
                assert(call_ensures(old(self).decode, (e,), Some(tt)));
            },
            None => {
                assert(call_ensures(old(self).decode, (e,), d));
            },
        }
    }

    open spec fn h_name(&self) -> &'static str {
        self.inner.h_name()
    }

    fn name(&self) -> &'static str {
        self.inner.name()
    }
}

/// Give an owned event to a by-reference handler.
pub struct ByRef<H>(pub H);

impl<V, E, H: RefHandler<V, E>> Handler<V, E> for ByRef<H> {
    open spec fn h_pre(&self, w: World<V>, e: E) -> bool {
        self.0.h_pre(w, e)
    }

    open spec fn h_rel(&self, w0: World<V>, e: E, w1: World<V>) -> bool {
        self.0.h_rel(w0, e, w1)
    }

    fn run(&mut self, world: &mut World<V>, event: E) {
        self.0.run(world, &event);
    }

    open spec fn h_name(&self) -> &'static str {
        self.0.h_name()
    }

    fn name(&self) -> &'static str {
        self.0.name()
    }
}

/// Give a clone of a borrowed event to an owned-event handler.
pub struct Cloned<H>(pub H);

impl<V, E: Clone, H: Handler<V, E>> RefHandler<V, E> for Cloned<H> {
    open spec fn h_pre(&self, w: World<V>, e: E) -> bool {
        forall|c: E| cloned(e, c) ==> #[trigger] self.0.h_pre(w, c)
    }

    open spec fn h_rel(&self, w0: World<V>, e: E, w1: World<V>) -> bool {
        exists|c: E| cloned(e, c) && #[trigger] self.0.h_rel(w0, c, w1)
    }

    /// Nothing is stated of the handler after a run: the owned-event
    /// handler inside tells nothing of its own next state.
    open spec fn h_next(
        &self,
        w0: World<V>,
        e: E,
        w1: World<V>,
        next_pre: spec_fn(World<V>, E) -> bool,
        next_rel: spec_fn(World<V>, E, World<V>) -> bool,
    ) -> bool {
        true
    }

    fn run(&mut self, world: &mut World<V>, event: &E) {
        let c = event.clone();
        let ghost cc = c;
        self.0.run(world, c);
        assert(old(self).0.h_rel(*old(world), cc, *world));
    }

    open spec fn h_name(&self) -> &'static str {
        self.0.h_name()
    }

    fn name(&self) -> &'static str {
        self.0.name()
    }
}

/// Give an owned copy of a borrowed event (`ToOwned`) to an owned-event
/// handler: `&str` events reach a `String` handler, `&[T]` events a
/// `Vec<T>` handler, `&T` events of a `Clone` type a `T` handler.
pub struct Owned<H, E: ?Sized> {
    /// The handler receiving owned events.
    pub handler: H,
    /// The borrowed event type.
    pub marker: PhantomData<Box<E>>,
}

impl<H, E: ?Sized> Owned<H, E> {
    /// Wrap `handler`.
    pub fn new(handler: H) -> (r: Owned<H, E>)
        ensures r.handler == handler,
    {
        Owned { handler, marker: PhantomData }
    }
}

/// `&str` events: the handler gets a `String` with the same characters
/// (`str::to_owned`).
impl<'e, V, H: Handler<V, String>> Handler<V, &'e str> for Owned<H, str> {
    open spec fn h_pre(&self, w: World<V>, e: &'e str) -> bool {
        forall|o: String| o@ == e@ ==> #[trigger] self.handler.h_pre(w, o)
    }

    open spec fn h_rel(&self, w0: World<V>, e: &'e str, w1: World<V>) -> bool {
        exists|o: String| o@ == e@ && #[trigger] self.handler.h_rel(w0, o, w1)
    }

    fn run(&mut self, world: &mut World<V>, event: &'e str) {
        let o = event.to_owned();
        let ghost oo = o;
        self.handler.run(world, o);
        assert(old(self).handler.h_rel(*old(world), oo, *world));
    }

    open spec fn h_name(&self) -> &'static str {
        self.handler.h_name()
    }

    fn name(&self) -> &'static str {
        self.handler.name()
    }
}

/// `&T` events for a `Clone` type: the handler gets a clone (the
/// `ToOwned` of a `Clone` type is its `clone`).
impl<'e, V, T: Clone + 'e, H: Handler<V, T>> Handler<V, &'e T> for Owned<H, T> {
    open spec fn h_pre(&self, w: World<V>, e: &'e T) -> bool {
        forall|o: T| cloned(*e, o) ==> #[trigger] self.handler.h_pre(w, o)
    }

    open spec fn h_rel(&self, w0: World<V>, e: &'e T, w1: World<V>) -> bool {
        exists|o: T| cloned(*e, o) && #[trigger] self.handler.h_rel(w0, o, w1)
    }

    fn run(&mut self, world: &mut World<V>, event: &'e T) {
        let o = event.clone();
        let ghost oo = o;
        self.handler.run(world, o);
        assert(old(self).handler.h_rel(*old(world), oo, *world));
    }

    open spec fn h_name(&self) -> &'static str {
        self.handler.h_name()
    }

    fn name(&self) -> &'static str {
        self.handler.name()
    }
}

/// An owned copy of a slice: its elements cloned in order (the `ToOwned`
/// of `[T]`).
pub fn slice_to_owned<T: Clone>(s: &[T]) -> (r: Vec<T>)
    ensures
        r@.len() == s@.len(),
        forall|i: int| 0 <= i < s@.len() ==> cloned(s@[i], #[trigger] r@[i]),
{
    let mut r: Vec<T> = Vec::new();
    let mut i: usize = 0;
    while i < s.len()
        invariant
            i <= s@.len(),
            r@.len() == i,
            forall|j: int| 0 <= j < i ==> cloned(s@[j], #[trigger] r@[j]),
        decreases s@.len() - i,
    {
        r.push(s[i].clone());
        i += 1;
    }
    r
}

/// `&[T]` events: the handler gets a `Vec` of the elements cloned in order.
impl<'e, V, T: Clone + 'e, H: Handler<V, Vec<T>>> Handler<V, &'e [T]> for Owned<H, [T]> {
    open spec fn h_pre(&self, w: World<V>, e: &'e [T]) -> bool {
        forall|o: Vec<T>| o@.len() == e@.len() && (forall|i: int| 0 <= i < e@.len() ==> cloned(e@[i], #[trigger] o@[i]))
            ==> #[trigger] self.handler.h_pre(w, o)
    }

    open spec fn h_rel(&self, w0: World<V>, e: &'e [T], w1: World<V>) -> bool {
        exists|o: Vec<T>| o@.len() == e@.len() && (forall|i: int| 0 <= i < e@.len() ==> cloned(e@[i], #[trigger] o@[i]))
            && #[trigger] self.handler.h_rel(w0, o, w1)
    }

    fn run(&mut self, world: &mut World<V>, event: &'e [T]) {
        let o = slice_to_owned(event);
        let ghost oo = o;
        self.handler.run(world, o);
        assert(old(self).handler.h_rel(*old(world), oo, *world));
    }

    open spec fn h_name(&self) -> &'static str {
        self.handler.h_name()
    }

    fn name(&self) -> &'static str {
        self.handler.name()
    }
}

} // verus!
