//! Context-owning handlers: each callback owns a value of its own (`ctx`)
//! that its step reads and replaces on every event, alongside the world's
//! resources.
use vstd::prelude::*;
use core::marker::PhantomData;
use crate::world::{World, ResourceId};
use crate::handler::Handler;

verus! {

/// A step with access to a callback's context.
pub trait CtxStep<V, C, E> {
    /// What must hold of the world, the context and the event for a call.
    spec fn pre(&self, w: World<V>, c: C, e: E) -> bool;

    /// How the world and the context relate across a call.
    spec fn rel(&self, w0: World<V>, c0: C, e: E, w1: World<V>, c1: C) -> bool;

    /// Run the step once.
    fn call(&self, world: &mut World<V>, ctx: &mut C, e: E)
        requires self.pre(*old(world), *old(ctx), e),
        ensures
            self.rel(*old(world), *old(ctx), e, *final(world), *final(ctx)),
            final(world)@.keys == old(world)@.keys,
            final(world)@.seq == old(world)@.seq;
}

/// Context and event only: `f(ctx, e)` is the new context.
pub struct CtxOnly<F> {
    /// The function.
    pub f: F,
}

/// A callback step over the context and the event.
pub fn ctx_only<F>(f: F) -> (r: CtxOnly<F>)
    ensures r.f == f,
{
    CtxOnly { f }
}

impl<V, C, E, F: Fn(&C, E) -> C> CtxStep<V, C, E> for CtxOnly<F> {
    open spec fn pre(&self, w: World<V>, c: C, e: E) -> bool {
        call_requires(self.f, (&c, e))
    }

    open spec fn rel(&self, w0: World<V>, c0: C, e: E, w1: World<V>, c1: C) -> bool {
        w1 == w0 && call_ensures(self.f, (&c0, e), c1)
    }

    fn call(&self, world: &mut World<V>, ctx: &mut C, e: E) {
        let c = (self.f)(&*ctx, e);
        *ctx = c;
    }
}

/// Context, one resource read, and the event.
pub struct CtxRes<F> {
    /// The resource read.
    pub id: ResourceId,
    /// The function.
    pub f: F,
}

/// A callback step reading the resource at `id`.
pub fn ctx_res<F>(id: ResourceId, f: F) -> (r: CtxRes<F>)
    ensures r.id == id, r.f == f,
{
    CtxRes { id, f }
}

impl<V, C, E, F: Fn(&C, &V, E) -> C> CtxStep<V, C, E> for CtxRes<F> {
    open spec fn pre(&self, w: World<V>, c: C, e: E) -> bool {
        w@.has(self.id) && call_requires(self.f, (&c, &w@.values[self.id.0 as int], e))
    }

    open spec fn rel(&self, w0: World<V>, c0: C, e: E, w1: World<V>, c1: C) -> bool {
        w1 == w0 && call_ensures(self.f, (&c0, &w0@.values[self.id.0 as int], e), c1)
    }

    fn call(&self, world: &mut World<V>, ctx: &mut C, e: E) {
        let c = (self.f)(&*ctx, world.get(self.id), e);
        *ctx = c;
    }
}

/// Context, one resource written, and the event: `f` returns the new
/// context and the resource's new value.
pub struct CtxResMut<F> {
    /// The resource written.
    pub id: ResourceId,
    /// The function.
    pub f: F,
}

/// A callback step writing the resource at `id`.
pub fn ctx_res_mut<F>(id: ResourceId, f: F) -> (r: CtxResMut<F>)
    ensures r.id == id, r.f == f,
{
    CtxResMut { id, f }
}

impl<V, C, E, F: Fn(&C, &V, E) -> (C, V)> CtxStep<V, C, E> for CtxResMut<F> {
    open spec fn pre(&self, w: World<V>, c: C, e: E) -> bool {
        w@.has(self.id) && call_requires(self.f, (&c, &w@.values[self.id.0 as int], e))
    }

    open spec fn rel(&self, w0: World<V>, c0: C, e: E, w1: World<V>, c1: C) -> bool {
        exists|v: V| call_ensures(self.f, (&c0, &w0@.values[self.id.0 as int], e), (c1, v))
            && w1@ == w0@.write(self.id, v)
    }

    fn call(&self, world: &mut World<V>, ctx: &mut C, e: E) {
        let (c, v) = (self.f)(&*ctx, world.get(self.id), e);
        world.set(self.id, v);
        *ctx = c;
    }
}

/// Context, one resource read, a second written, and the event.
pub struct CtxResResMut<F> {
    /// The resource read.
    pub read: ResourceId,
    /// The resource written.
    pub write: ResourceId,
    /// The function.
    pub f: F,
}

/// A callback step reading `read` and writing `write`.
pub fn ctx_res_res_mut<F>(read: ResourceId, write: ResourceId, f: F) -> (r: CtxResResMut<F>)
    ensures r.read == read, r.write == write, r.f == f,
{
    CtxResResMut { read, write, f }
}

impl<V, C, E, F: Fn(&C, &V, &V, E) -> (C, V)> CtxStep<V, C, E> for CtxResResMut<F> {
    open spec fn pre(&self, w: World<V>, c: C, e: E) -> bool {
        w@.has(self.read) && w@.has(self.write)
            && call_requires(self.f, (&c, &w@.values[self.read.0 as int], &w@.values[self.write.0 as int], e))
    }

    open spec fn rel(&self, w0: World<V>, c0: C, e: E, w1: World<V>, c1: C) -> bool {
        exists|v: V| call_ensures(self.f, (&c0, &w0@.values[self.read.0 as int], &w0@.values[self.write.0 as int], e), (c1, v))
            && w1@ == w0@.write(self.write, v)
    }

    fn call(&self, world: &mut World<V>, ctx: &mut C, e: E) {
        let (c, v) = (self.f)(&*ctx, world.get(self.read), world.get(self.write), e);
        world.set(self.write, v);
        *ctx = c;
    }
}

/// Context and a view of the whole world, one resource written, and the
/// event: `f` returns the new context and the resource's new value.
pub struct CtxWrite<F> {
    /// The resource written.
    pub id: ResourceId,
    /// The function.
    pub f: F,
}

/// A callback step writing the resource at `id` from a view of the world.
pub fn ctx_write<F>(id: ResourceId, f: F) -> (r: CtxWrite<F>)
    ensures r.id == id, r.f == f,
{
    CtxWrite { id, f }
}

impl<V, C, E, F: Fn(&C, &World<V>, E) -> (C, V)> CtxStep<V, C, E> for CtxWrite<F> {
    open spec fn pre(&self, w: World<V>, c: C, e: E) -> bool {
        w@.has(self.id) && call_requires(self.f, (&c, &w, e))
    }

    open spec fn rel(&self, w0: World<V>, c0: C, e: E, w1: World<V>, c1: C) -> bool {
        exists|v: V| call_ensures(self.f, (&c0, &w0, e), (c1, v)) && w1@ == w0@.write(self.id, v)
    }

    fn call(&self, world: &mut World<V>, ctx: &mut C, e: E) {
        let (c, v) = (self.f)(&*ctx, &*world, e);
        world.set(self.id, v);
        *ctx = c;
    }
}

/// A named callback function: from the context, one resource value and the
/// event to the new context and the resource's new value, with its
/// precondition and result stated as spec functions.
pub trait CtxResMutFn<V, C, E> {
    /// When the function may be called.
    spec fn ctx_res_mut_pre(c: C, v: V, e: E) -> bool;

    /// The function's result: the new context and the new value.
    spec fn ctx_res_mut_spec(c: C, v: V, e: E) -> (C, V);

    /// Call the function.
    fn ctx_res_mut_call(c: &C, v: &V, e: E) -> (r: (C, V))
        requires Self::ctx_res_mut_pre(*c, *v, e),
        ensures r == Self::ctx_res_mut_spec(*c, *v, e);
}

/// Callback step running a [`CtxResMutFn`] on the resource at `id`.
pub struct NamedCtxResMut<P> {
    /// The resource written.
    pub id: ResourceId,
    /// The function.
    pub marker: PhantomData<P>,
}

/// A callback step running `P` on the resource at `id`.
pub fn named_ctx_res_mut<P>(id: ResourceId) -> (r: NamedCtxResMut<P>)
    ensures r.id == id,
{
    NamedCtxResMut { id, marker: PhantomData }
}

impl<V, C, E, P: CtxResMutFn<V, C, E>> CtxStep<V, C, E> for NamedCtxResMut<P> {
    open spec fn pre(&self, w: World<V>, c: C, e: E) -> bool {
        w@.has(self.id) && P::ctx_res_mut_pre(c, w@.values[self.id.0 as int], e)
    }

    open spec fn rel(&self, w0: World<V>, c0: C, e: E, w1: World<V>, c1: C) -> bool {
        let r = P::ctx_res_mut_spec(c0, w0@.values[self.id.0 as int], e);
        c1 == r.0 && w1@ == w0@.write(self.id, r.1)
    }

    fn call(&self, world: &mut World<V>, ctx: &mut C, e: E) {
        let (c, v) = P::ctx_res_mut_call(&*ctx, world.get(self.id), e);
        world.set(self.id, v);
        *ctx = c;
    }
}

/// A handler owning a context value: each event runs `step` over the
/// world, the context and the event.
pub struct Callback<C, S> {
    /// The context, readable and writable between events.
    pub ctx: C,
    /// The step.
    pub step: S,
    /// Diagnostic name.
    pub name: &'static str,
}

/// Conversion of a callback step into a [`Callback`] owning `ctx`.
pub trait IntoCallback<C>: Sized {
    /// Build the callback.
    fn into_callback(self, ctx: C) -> (r: Callback<C, Self>)
        ensures r.ctx == ctx, r.step == self;
}

impl<C, S> IntoCallback<C> for S {
    fn into_callback(self, ctx: C) -> (r: Callback<C, S>) {
        Callback { ctx, step: self, name: "callback" }
    }
}

impl<V, C, E, S: CtxStep<V, C, E>> Handler<V, E> for Callback<C, S> {
    open spec fn h_pre(&self, w: World<V>, e: E) -> bool {
        self.step.pre(w, self.ctx, e)
    }

    open spec fn h_rel(&self, w0: World<V>, e: E, w1: World<V>) -> bool {
        exists|c1: C| self.step.rel(w0, self.ctx, e, w1, c1)
    }

    fn run(&mut self, world: &mut World<V>, event: E)
        ensures
            old(self).step.rel(*old(world), old(self).ctx, event, *final(world), final(self).ctx),
            final(self).step == old(self).step,
    {
        let ghost e = event;
        self.step.call(world, &mut self.ctx, event);
        assert(old(self).step.rel(*old(world), old(self).ctx, e, *world, self.ctx));
    }

    open spec fn h_name(&self) -> &'static str {
        self.name
    }

    fn name(&self) -> &'static str {
        self.name
    }
}

} // verus!
