//! Handlers: per-event dispatch over the world.
use vstd::prelude::*;
use crate::world::World;
use crate::step::{Step, RefStep};

verus! {

/// Object-safe dispatch trait: runs once per event against the world.
pub trait Handler<V, E> {
    /// What must hold of the world and the event for a run.
    spec fn h_pre(&self, w: World<V>, e: E) -> bool;

    /// How the world before and after a run relate.
    spec fn h_rel(&self, w0: World<V>, e: E, w1: World<V>) -> bool;

    /// Handle one event.
    fn run(&mut self, world: &mut World<V>, event: E)
        requires old(self).h_pre(*old(world), event),
        ensures
            old(self).h_rel(*old(world), event, *final(world)),
            final(world)@.keys == old(world)@.keys,
            final(world)@.seq == old(world)@.seq;

    /// The diagnostic name.
    spec fn h_name(&self) -> &'static str;

    /// Diagnostic name.
    fn name(&self) -> (r: &'static str)
        ensures r == self.h_name();
}

/// Dispatch trait for handlers that receive the event by reference
/// (members of a fan-out).
pub trait RefHandler<V, E> {
    /// What must hold of the world and the event for a run.
    spec fn h_pre(&self, w: World<V>, e: E) -> bool;

    /// How the world before and after a run relate.
    spec fn h_rel(&self, w0: World<V>, e: E, w1: World<V>) -> bool;

    /// What the handler is after a run on `e` from `w0` to `w1`:
    /// `next_pre` and `next_rel` are its [`RefHandler::h_pre`] and
    /// [`RefHandler::h_rel`] then. The handler after a run is this one
    /// advanced by its own step, never another.
    spec fn h_next(
        &self,
        w0: World<V>,
        e: E,
        w1: World<V>,
        next_pre: spec_fn(World<V>, E) -> bool,
        next_rel: spec_fn(World<V>, E, World<V>) -> bool,
    ) -> bool;

    /// Handle one borrowed event.
    fn run(&mut self, world: &mut World<V>, event: &E)
        requires old(self).h_pre(*old(world), *event),
        ensures
            old(self).h_rel(*old(world), *event, *final(world)),
            old(self).h_next(
                *old(world),
                *event,
                *final(world),
                |w: World<V>, x: E| final(self).h_pre(w, x),
                |a: World<V>, x: E, b: World<V>| final(self).h_rel(a, x, b),
            ),
            final(world)@.keys == old(world)@.keys,
            final(world)@.seq == old(world)@.seq;

    /// The diagnostic name.
    spec fn h_name(&self) -> &'static str;

    /// Diagnostic name.
    fn name(&self) -> (r: &'static str)
        ensures r == self.h_name();
}

/// A boxed handler, for storing handlers of different types together.
#[verifier::reject_recursive_types(V)]
#[verifier::reject_recursive_types(E)]
pub struct BoxedHandler<V, E>(pub Box<dyn Handler<V, E>>);

/// `h` in a box, as [`BoxedHandler::new`] builds it.
pub open spec fn boxed_handler<V, E, H: Handler<V, E> + 'static>(h: H) -> BoxedHandler<V, E> {
    BoxedHandler(Box::new(h))
}

impl<V, E> BoxedHandler<V, E> {
    /// Box a handler.
    pub fn new<H: Handler<V, E> + 'static>(h: H) -> (r: BoxedHandler<V, E>)
        ensures r == boxed_handler(h),
    {
        BoxedHandler(Box::new(h))
    }
}

/// A handler built from a unit-returning step (the `into_handler`
/// conversion): running the handler calls the step.
pub struct HandlerFn<S> {
    /// The step run per event.
    pub step: S,
    /// Diagnostic name.
    pub name: &'static str,
}

/// Convert a unit-returning step into a handler named `name`.
pub fn into_handler_named<S>(step: S, name: &'static str) -> (r: HandlerFn<S>)
    ensures r.step == step, r.name == name,
{
    HandlerFn { step, name }
}

/// Convert a unit-returning step into a handler with the default name.
pub fn into_handler<S>(step: S) -> (r: HandlerFn<S>)
    ensures r.step == step, r.name == "handler",
{
    HandlerFn { step, name: "handler" }
}

impl<V, E, S: Step<V, E, ()>> Handler<V, E> for HandlerFn<S> {
    open spec fn h_pre(&self, w: World<V>, e: E) -> bool {
        self.step.pre(w, e)
    }

    open spec fn h_rel(&self, w0: World<V>, e: E, w1: World<V>) -> bool {
        exists|s1: S| self.step.rel(&s1, w0, e, w1, ())
    }

    fn run(&mut self, world: &mut World<V>, event: E) {
        let ghost e = event;
        self.step.call(world, event);
        assert(old(self).step.rel(&self.step, *old(world), e, *world, ()));
    }

    open spec fn h_name(&self) -> &'static str {
        self.name
    }

    fn name(&self) -> &'static str {
        self.name
    }
}

/// A by-reference handler built from a unit-returning by-reference step.
pub struct RefHandlerFn<S> {
    /// The step run per event.
    pub step: S,
    /// Diagnostic name.
    pub name: &'static str,
}

/// Convert a unit-returning by-reference step into a by-reference handler.
pub fn into_ref_handler<S>(step: S) -> (r: RefHandlerFn<S>)
    ensures r.step == step, r.name == "handler",
{
    RefHandlerFn { step, name: "handler" }
}

impl<V, E, S: RefStep<V, E, ()>> RefHandler<V, E> for RefHandlerFn<S> {
    open spec fn h_pre(&self, w: World<V>, e: E) -> bool {
        self.step.pre(w, e)
    }

    open spec fn h_rel(&self, w0: World<V>, e: E, w1: World<V>) -> bool {
        exists|s1: S| self.step.rel(&s1, w0, e, w1, ())
    }

    open spec fn h_next(
        &self,
        w0: World<V>,
        e: E,
        w1: World<V>,
        next_pre: spec_fn(World<V>, E) -> bool,
        next_rel: spec_fn(World<V>, E, World<V>) -> bool,
    ) -> bool {
        exists|s1: S| {
            &&& #[trigger] self.step.rel(&s1, w0, e, w1, ())
            &&& next_pre == |w: World<V>, x: E| s1.pre(w, x)
            &&& next_rel == |a: World<V>, x: E, b: World<V>| exists|s2: S| s1.rel(&s2, a, x, b, ())
        }
    }

    fn run(&mut self, world: &mut World<V>, event: &E) {
        self.step.call(world, event);
        proof {
            let s1 = self.step;
            assert(old(self).step.rel(&s1, *old(world), *event, *world, ()));
            assert((|w: World<V>, x: E| self.h_pre(w, x)) =~= (|w: World<V>, x: E| s1.pre(w, x)));
            assert((|a: World<V>, x: E, b: World<V>| self.h_rel(a, x, b))
                =~= (|a: World<V>, x: E, b: World<V>| exists|s2: S| s1.rel(&s2, a, x, b, ())));
        }
    }

    open spec fn h_name(&self) -> &'static str {
        self.name
    }

    fn name(&self) -> &'static str {
        self.name
    }
}

} // verus!
