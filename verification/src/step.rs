//! Step traits and the leaf steps that wrap user functions.
//!
//! A step transforms an input into an output, possibly reading or writing
//! [`World`] resources. [`Step`] takes its input by value, [`RefStep`] by
//! reference. Each step states its precondition (`pre`) and its
//! input/output relation (`rel`) over the world before and after the call
//! and over its own state before and after the call.
use vstd::prelude::*;
use crate::world::{World, ResourceId, WorldView};
use core::marker::PhantomData;

verus! {

/// A pipeline step taking its input by value.
pub trait Step<V, In, Out> {
    /// What must hold of the world and the input for a call.
    spec fn pre(&self, w: World<V>, x: In) -> bool;

    /// How the step's state, the world and the output relate across a call.
    spec fn rel(&self, next: &Self, w0: World<V>, x: In, w1: World<V>, out: Out) -> bool;

    /// Run the step once.
    fn call(&mut self, world: &mut World<V>, x: In) -> (out: Out)
        requires old(self).pre(*old(world), x),
        ensures
            old(self).rel(&*final(self), *old(world), x, *final(world), out),
            final(world)@.keys == old(world)@.keys,
            final(world)@.seq == old(world)@.seq;
}

/// A step taking its input by reference (DAG nodes, guards, taps).
pub trait RefStep<V, In, Out> {
    /// What must hold of the world and the input for a call.
    spec fn pre(&self, w: World<V>, x: In) -> bool;

    /// How the step's state, the world and the output relate across a call.
    spec fn rel(&self, next: &Self, w0: World<V>, x: In, w1: World<V>, out: Out) -> bool;

    /// Run the step once.
    fn call(&mut self, world: &mut World<V>, x: &In) -> (out: Out)
        requires old(self).pre(*old(world), *x),
        ensures
            old(self).rel(&*final(self), *old(world), *x, *final(world), out),
            final(world)@.keys == old(world)@.keys,
            final(world)@.seq == old(world)@.seq;
}

// -----------------------------------------------------------------------------
// By-value leaves
// -----------------------------------------------------------------------------

/// A pure function of the input; touches no resource.
pub struct Pure<F> {
    /// The function.
    pub f: F,
}

/// Wrap a pure function as a step.
pub fn pure<F>(f: F) -> (r: Pure<F>)
    ensures r.f == f,
{
    Pure { f }
}

impl<V, In, Out, F: Fn(In) -> Out> Step<V, In, Out> for Pure<F> {
    open spec fn pre(&self, w: World<V>, x: In) -> bool {
        call_requires(self.f, (x,))
    }

    open spec fn rel(&self, next: &Self, w0: World<V>, x: In, w1: World<V>, out: Out) -> bool {
        *next == *self && w1 == w0 && call_ensures(self.f, (x,), out)
    }

    fn call(&mut self, world: &mut World<V>, x: In) -> (out: Out) {
        (self.f)(x)
    }
}

/// Reads one resource (a `Res` parameter) and the input.
pub struct Res1<F> {
    /// The resource read.
    pub id: ResourceId,
    /// The function, given the resource value and the input.
    pub f: F,
}

/// A step reading the resource at `id`.
pub fn res<F>(id: ResourceId, f: F) -> (r: Res1<F>)
    ensures r.id == id, r.f == f,
{
    Res1 { id, f }
}

impl<V, In, Out, F: Fn(&V, In) -> Out> Step<V, In, Out> for Res1<F> {
    open spec fn pre(&self, w: World<V>, x: In) -> bool {
        w@.has(self.id) && call_requires(self.f, (&w@.values[self.id.0 as int], x))
    }

    open spec fn rel(&self, next: &Self, w0: World<V>, x: In, w1: World<V>, out: Out) -> bool {
        *next == *self && w1 == w0 && call_ensures(self.f, (&w0@.values[self.id.0 as int], x), out)
    }

    fn call(&mut self, world: &mut World<V>, x: In) -> (out: Out) {
        let v = world.get(self.id);
        (self.f)(v, x)
    }
}

/// Reads two resources and the input.
pub struct Res2<F> {
    /// First resource read.
    pub a: ResourceId,
    /// Second resource read.
    pub b: ResourceId,
    /// The function, given both resource values and the input.
    pub f: F,
}

/// A step reading the resources at `a` and `b`.
pub fn res2<F>(a: ResourceId, b: ResourceId, f: F) -> (r: Res2<F>)
    ensures r.a == a, r.b == b, r.f == f,
{
    Res2 { a, b, f }
}

impl<V, In, Out, F: Fn(&V, &V, In) -> Out> Step<V, In, Out> for Res2<F> {
    open spec fn pre(&self, w: World<V>, x: In) -> bool {
        w@.has(self.a) && w@.has(self.b)
            && call_requires(self.f, (&w@.values[self.a.0 as int], &w@.values[self.b.0 as int], x))
    }

    open spec fn rel(&self, next: &Self, w0: World<V>, x: In, w1: World<V>, out: Out) -> bool {
        *next == *self && w1 == w0
            && call_ensures(self.f, (&w0@.values[self.a.0 as int], &w0@.values[self.b.0 as int], x), out)
    }

    fn call(&mut self, world: &mut World<V>, x: In) -> (out: Out) {
        let va = world.get(self.a);
        let vb = world.get(self.b);
        (self.f)(va, vb, x)
    }
}

/// Reads any resources through a shared world borrow.
pub struct Read<F> {
    /// The function, given the world and the input.
    pub f: F,
}

/// A step with read-only access to the whole world.
pub fn read<F>(f: F) -> (r: Read<F>)
    ensures r.f == f,
{
    Read { f }
}

impl<V, In, Out, F: Fn(&World<V>, In) -> Out> Step<V, In, Out> for Read<F> {
    open spec fn pre(&self, w: World<V>, x: In) -> bool {
        call_requires(self.f, (&w, x))
    }

    open spec fn rel(&self, next: &Self, w0: World<V>, x: In, w1: World<V>, out: Out) -> bool {
        *next == *self && w1 == w0 && call_ensures(self.f, (&w0, x), out)
    }

    fn call(&mut self, world: &mut World<V>, x: In) -> (out: Out) {
        (self.f)(&*world, x)
    }
}

/// Writes one resource (a `ResMut` parameter): the function receives the
/// current value and the input and returns the new value and the output.
/// The write stamps the resource with the current sequence.
pub struct ResMut1<F> {
    /// The resource written.
    pub id: ResourceId,
    /// The function.
    pub f: F,
}

/// A step writing the resource at `id`.
pub fn res_mut<F>(id: ResourceId, f: F) -> (r: ResMut1<F>)
    ensures r.id == id, r.f == f,
{
    ResMut1 { id, f }
}

impl<V, In, Out, F: Fn(&V, In) -> (V, Out)> Step<V, In, Out> for ResMut1<F> {
    open spec fn pre(&self, w: World<V>, x: In) -> bool {
        w@.has(self.id) && call_requires(self.f, (&w@.values[self.id.0 as int], x))
    }

    open spec fn rel(&self, next: &Self, w0: World<V>, x: In, w1: World<V>, out: Out) -> bool {
        *next == *self && exists|v: V|
            call_ensures(self.f, (&w0@.values[self.id.0 as int], x), (v, out))
                && w1@ == w0@.write(self.id, v)
    }

    fn call(&mut self, world: &mut World<V>, x: In) -> (out: Out) {
        let (v, out) = (self.f)(world.get(self.id), x);
        world.set(self.id, v);
        out
    }
}

/// Writes one resource after reading the whole world.
pub struct Write<F> {
    /// The resource written.
    pub id: ResourceId,
    /// The function, given the world and the input; returns the new value
    /// of the resource and the output.
    pub f: F,
}

/// A step writing the resource at `id` from a view of the whole world.
pub fn write_with<F>(id: ResourceId, f: F) -> (r: Write<F>)
    ensures r.id == id, r.f == f,
{
    Write { id, f }
}

impl<V, In, Out, F: Fn(&World<V>, In) -> (V, Out)> Step<V, In, Out> for Write<F> {
    open spec fn pre(&self, w: World<V>, x: In) -> bool {
        w@.has(self.id) && call_requires(self.f, (&w, x))
    }

    open spec fn rel(&self, next: &Self, w0: World<V>, x: In, w1: World<V>, out: Out) -> bool {
        *next == *self && exists|v: V|
            call_ensures(self.f, (&w0, x), (v, out)) && w1@ == w0@.write(self.id, v)
    }

    fn call(&mut self, world: &mut World<V>, x: In) -> (out: Out) {
        let (v, out) = (self.f)(&*world, x);
        world.set(self.id, v);
        out
    }
}

/// A step with private state (a `Local` parameter, or a scan
/// accumulator): the function receives the state and the input and
/// returns the new state and the output.
pub struct Scan<A, F> {
    /// The current state.
    pub acc: A,
    /// The function.
    pub f: F,
}

/// A step with private state starting at `initial`.
pub fn scan<A, F>(initial: A, f: F) -> (r: Scan<A, F>)
    ensures r.acc == initial, r.f == f,
{
    Scan { acc: initial, f }
}

impl<V, A, In, Out, F: Fn(&A, In) -> (A, Out)> Step<V, In, Out> for Scan<A, F> {
    open spec fn pre(&self, w: World<V>, x: In) -> bool {
        call_requires(self.f, (&self.acc, x))
    }

    open spec fn rel(&self, next: &Self, w0: World<V>, x: In, w1: World<V>, out: Out) -> bool {
        next.f == self.f && w1 == w0 && call_ensures(self.f, (&self.acc, x), (next.acc, out))
    }

    fn call(&mut self, world: &mut World<V>, x: In) -> (out: Out) {
        let (a, out) = (self.f)(&self.acc, x);
        self.acc = a;
        out
    }
}

/// A by-reference step with private state: the function receives the
/// state and the borrowed input and returns the new state and the output.
pub struct RefScan<A, F> {
    /// The current state.
    pub acc: A,
    /// The function.
    pub f: F,
}

impl<V, A, In, Out, F: Fn(&A, &In) -> (A, Out)> RefStep<V, In, Out> for RefScan<A, F> {
    open spec fn pre(&self, w: World<V>, x: In) -> bool {
        call_requires(self.f, (&self.acc, &x))
    }

    open spec fn rel(&self, next: &Self, w0: World<V>, x: In, w1: World<V>, out: Out) -> bool {
        next.f == self.f && w1 == w0 && call_ensures(self.f, (&self.acc, &x), (next.acc, out))
    }

    fn call(&mut self, world: &mut World<V>, x: &In) -> (out: Out) {
        let (a, out) = (self.f)(&self.acc, x);
        self.acc = a;
        out
    }
}

// -----------------------------------------------------------------------------
// By-reference leaves
// -----------------------------------------------------------------------------

/// A pure function of a borrowed input.
pub struct RefPure<F> {
    /// The function.
    pub f: F,
}

/// Wrap a pure function of a borrowed input.
pub fn ref_pure<F>(f: F) -> (r: RefPure<F>)
    ensures r.f == f,
{
    RefPure { f }
}

impl<V, In, Out, F: Fn(&In) -> Out> RefStep<V, In, Out> for RefPure<F> {
    open spec fn pre(&self, w: World<V>, x: In) -> bool {
        call_requires(self.f, (&x,))
    }

    open spec fn rel(&self, next: &Self, w0: World<V>, x: In, w1: World<V>, out: Out) -> bool {
        *next == *self && w1 == w0 && call_ensures(self.f, (&x,), out)
    }

    fn call(&mut self, world: &mut World<V>, x: &In) -> (out: Out) {
        (self.f)(x)
    }
}

/// Reads one resource and a borrowed input.
pub struct RefRes1<F> {
    /// The resource read.
    pub id: ResourceId,
    /// The function.
    pub f: F,
}

/// A by-reference step reading the resource at `id`.
pub fn ref_res<F>(id: ResourceId, f: F) -> (r: RefRes1<F>)
    ensures r.id == id, r.f == f,
{
    RefRes1 { id, f }
}

impl<V, In, Out, F: Fn(&V, &In) -> Out> RefStep<V, In, Out> for RefRes1<F> {
    open spec fn pre(&self, w: World<V>, x: In) -> bool {
        w@.has(self.id) && call_requires(self.f, (&w@.values[self.id.0 as int], &x))
    }

    open spec fn rel(&self, next: &Self, w0: World<V>, x: In, w1: World<V>, out: Out) -> bool {
        *next == *self && w1 == w0 && call_ensures(self.f, (&w0@.values[self.id.0 as int], &x), out)
    }

    fn call(&mut self, world: &mut World<V>, x: &In) -> (out: Out) {
        let v = world.get(self.id);
        (self.f)(v, x)
    }
}

/// Reads the whole world and a borrowed input.
pub struct RefRead<F> {
    /// The function.
    pub f: F,
}

/// A by-reference step with read-only access to the whole world.
pub fn ref_read<F>(f: F) -> (r: RefRead<F>)
    ensures r.f == f,
{
    RefRead { f }
}

impl<V, In, Out, F: Fn(&World<V>, &In) -> Out> RefStep<V, In, Out> for RefRead<F> {
    open spec fn pre(&self, w: World<V>, x: In) -> bool {
        call_requires(self.f, (&w, &x))
    }

    open spec fn rel(&self, next: &Self, w0: World<V>, x: In, w1: World<V>, out: Out) -> bool {
        *next == *self && w1 == w0 && call_ensures(self.f, (&w0, &x), out)
    }

    fn call(&mut self, world: &mut World<V>, x: &In) -> (out: Out) {
        (self.f)(&*world, x)
    }
}

/// Writes one resource from its current value and a borrowed input.
pub struct RefResMut1<F> {
    /// The resource written.
    pub id: ResourceId,
    /// The function; returns the new value and the output.
    pub f: F,
}

/// A by-reference step writing the resource at `id`.
pub fn ref_res_mut<F>(id: ResourceId, f: F) -> (r: RefResMut1<F>)
    ensures r.id == id, r.f == f,
{
    RefResMut1 { id, f }
}

impl<V, In, Out, F: Fn(&V, &In) -> (V, Out)> RefStep<V, In, Out> for RefResMut1<F> {
    open spec fn pre(&self, w: World<V>, x: In) -> bool {
        w@.has(self.id) && call_requires(self.f, (&w@.values[self.id.0 as int], &x))
    }

    open spec fn rel(&self, next: &Self, w0: World<V>, x: In, w1: World<V>, out: Out) -> bool {
        *next == *self && exists|v: V|
            call_ensures(self.f, (&w0@.values[self.id.0 as int], &x), (v, out))
                && w1@ == w0@.write(self.id, v)
    }

    fn call(&mut self, world: &mut World<V>, x: &In) -> (out: Out) {
        let (v, out) = (self.f)(world.get(self.id), x);
        world.set(self.id, v);
        out
    }
}

} // verus!
verus! {

// -----------------------------------------------------------------------------
// Named functions
// -----------------------------------------------------------------------------

/// A named step function: a function of the input, with its
/// precondition and result stated as spec functions.
pub trait PureFn<In, Out> {
    /// When the function may be called.
    spec fn pure_pre(x: In) -> bool;

    /// The function's result.
    spec fn pure_spec(x: In) -> Out;

    /// Call the function.
    fn pure_call(x: In) -> (r: Out)
        requires Self::pure_pre(x),
        ensures r == Self::pure_spec(x);
}

/// Step running a [`PureFn`].
pub struct Named<P> {
    /// The function.
    pub marker: PhantomData<P>,
}

impl<V, In, Out, P: PureFn<In, Out>> Step<V, In, Out> for Named<P> {
    open spec fn pre(&self, w: World<V>, x: In) -> bool {
        P::pure_pre(x)
    }

    open spec fn rel(&self, next: &Self, w0: World<V>, x: In, w1: World<V>, out: Out) -> bool {
        *next == *self && w1 == w0 && out == P::pure_spec(x)
    }

    fn call(&mut self, world: &mut World<V>, x: In) -> (out: Out) {
        P::pure_call(x)
    }
}

/// A named step function: a function of the input (by reference), with its
/// precondition and result stated as spec functions.
pub trait RefPureFn<In, Out> {
    /// When the function may be called.
    spec fn ref_pure_pre(x: In) -> bool;

    /// The function's result.
    spec fn ref_pure_spec(x: In) -> Out;

    /// Call the function.
    fn ref_pure_call(x: &In) -> (r: Out)
        requires Self::ref_pure_pre(*x),
        ensures r == Self::ref_pure_spec(*x);
}

/// Step running a [`RefPureFn`].
pub struct NamedRef<P> {
    /// The function.
    pub marker: PhantomData<P>,
}

impl<V, In, Out, P: RefPureFn<In, Out>> RefStep<V, In, Out> for NamedRef<P> {
    open spec fn pre(&self, w: World<V>, x: In) -> bool {
        P::ref_pure_pre(x)
    }

    open spec fn rel(&self, next: &Self, w0: World<V>, x: In, w1: World<V>, out: Out) -> bool {
        *next == *self && w1 == w0 && out == P::ref_pure_spec(x)
    }

    fn call(&mut self, world: &mut World<V>, x: &In) -> (out: Out) {
        P::ref_pure_call(x)
    }
}

/// A named step function: a function of one resource value and the input, with its
/// precondition and result stated as spec functions.
pub trait ResFn<V, In, Out> {
    /// When the function may be called.
    spec fn res_pre(v: V, x: In) -> bool;

    /// The function's result.
    spec fn res_spec(v: V, x: In) -> Out;

    /// Call the function.
    fn res_call(v: &V, x: In) -> (r: Out)
        requires Self::res_pre(*v, x),
        ensures r == Self::res_spec(*v, x);
}

/// Step running a [`ResFn`].
pub struct NamedRes<P> {
    /// The resource accessed.
    pub id: ResourceId,
    /// The function.
    pub marker: PhantomData<P>,
}

impl<V, In, Out, P: ResFn<V, In, Out>> Step<V, In, Out> for NamedRes<P> {
    open spec fn pre(&self, w: World<V>, x: In) -> bool {
        w@.has(self.id) && P::res_pre(w@.values[self.id.0 as int], x)
    }

    open spec fn rel(&self, next: &Self, w0: World<V>, x: In, w1: World<V>, out: Out) -> bool {
        *next == *self && w1 == w0 && out == P::res_spec(w0@.values[self.id.0 as int], x)
    }

    fn call(&mut self, world: &mut World<V>, x: In) -> (out: Out) {
        let v = world.get(self.id);
        P::res_call(v, x)
    }
}

/// A named step function: a function of one resource value and the input (by reference), with its
/// precondition and result stated as spec functions.
pub trait RefResFn<V, In, Out> {
    /// When the function may be called.
    spec fn ref_res_pre(v: V, x: In) -> bool;

    /// The function's result.
    spec fn ref_res_spec(v: V, x: In) -> Out;

    /// Call the function.
    fn ref_res_call(v: &V, x: &In) -> (r: Out)
        requires Self::ref_res_pre(*v, *x),
        ensures r == Self::ref_res_spec(*v, *x);
}

/// Step running a [`RefResFn`].
pub struct NamedRefRes<P> {
    /// The resource accessed.
    pub id: ResourceId,
    /// The function.
    pub marker: PhantomData<P>,
}

impl<V, In, Out, P: RefResFn<V, In, Out>> RefStep<V, In, Out> for NamedRefRes<P> {
    open spec fn pre(&self, w: World<V>, x: In) -> bool {
        w@.has(self.id) && P::ref_res_pre(w@.values[self.id.0 as int], x)
    }

    open spec fn rel(&self, next: &Self, w0: World<V>, x: In, w1: World<V>, out: Out) -> bool {
        *next == *self && w1 == w0 && out == P::ref_res_spec(w0@.values[self.id.0 as int], x)
    }

    fn call(&mut self, world: &mut World<V>, x: &In) -> (out: Out) {
        let v = world.get(self.id);
        P::ref_res_call(v, x)
    }
}

/// A named step function: a function from one resource value and the input to the resource's new value and the output, with its
/// precondition and result stated as spec functions.
pub trait ResMutFn<V, In, Out> {
    /// When the function may be called.
    spec fn res_mut_pre(v: V, x: In) -> bool;

    /// The function's result.
    spec fn res_mut_spec(v: V, x: In) -> (V, Out);

    /// Call the function.
    fn res_mut_call(v: &V, x: In) -> (r: (V, Out))
        requires Self::res_mut_pre(*v, x),
        ensures r == Self::res_mut_spec(*v, x);
}

/// Step running a [`ResMutFn`].
pub struct NamedResMut<P> {
    /// The resource accessed.
    pub id: ResourceId,
    /// The function.
    pub marker: PhantomData<P>,
}

impl<V, In, Out, P: ResMutFn<V, In, Out>> Step<V, In, Out> for NamedResMut<P> {
    open spec fn pre(&self, w: World<V>, x: In) -> bool {
        w@.has(self.id) && P::res_mut_pre(w@.values[self.id.0 as int], x)
    }

    open spec fn rel(&self, next: &Self, w0: World<V>, x: In, w1: World<V>, out: Out) -> bool {
        *next == *self && out == P::res_mut_spec(w0@.values[self.id.0 as int], x).1 && w1@ == w0@.write(self.id, P::res_mut_spec(w0@.values[self.id.0 as int], x).0)
    }

    fn call(&mut self, world: &mut World<V>, x: In) -> (out: Out) {
        let (v, out) = P::res_mut_call(world.get(self.id), x);
        world.set(self.id, v);
        out
    }
}

/// A named step function: a function from one resource value and the input to the resource's new value and the output (by reference), with its
/// precondition and result stated as spec functions.
pub trait RefResMutFn<V, In, Out> {
    /// When the function may be called.
    spec fn ref_res_mut_pre(v: V, x: In) -> bool;

    /// The function's result.
    spec fn ref_res_mut_spec(v: V, x: In) -> (V, Out);

    /// Call the function.
    fn ref_res_mut_call(v: &V, x: &In) -> (r: (V, Out))
        requires Self::ref_res_mut_pre(*v, *x),
        ensures r == Self::ref_res_mut_spec(*v, *x);
}

/// Step running a [`RefResMutFn`].
pub struct NamedRefResMut<P> {
    /// The resource accessed.
    pub id: ResourceId,
    /// The function.
    pub marker: PhantomData<P>,
}

impl<V, In, Out, P: RefResMutFn<V, In, Out>> RefStep<V, In, Out> for NamedRefResMut<P> {
    open spec fn pre(&self, w: World<V>, x: In) -> bool {
        w@.has(self.id) && P::ref_res_mut_pre(w@.values[self.id.0 as int], x)
    }

    open spec fn rel(&self, next: &Self, w0: World<V>, x: In, w1: World<V>, out: Out) -> bool {
        *next == *self && out == P::ref_res_mut_spec(w0@.values[self.id.0 as int], x).1 && w1@ == w0@.write(self.id, P::ref_res_mut_spec(w0@.values[self.id.0 as int], x).0)
    }

    fn call(&mut self, world: &mut World<V>, x: &In) -> (out: Out) {
        let (v, out) = P::ref_res_mut_call(world.get(self.id), x);
        world.set(self.id, v);
        out
    }
}

/// A named step function: a function of the whole world (read-only) and the input, with its
/// precondition and result stated as spec functions.
pub trait ReadFn<V, In, Out> {
    /// When the function may be called.
    spec fn read_pre(w: World<V>, x: In) -> bool;

    /// The function's result.
    spec fn read_spec(w: World<V>, x: In) -> Out;

    /// Call the function.
    fn read_call(w: &World<V>, x: In) -> (r: Out)
        requires Self::read_pre(*w, x),
        ensures r == Self::read_spec(*w, x);
}

/// Step running a [`ReadFn`].
pub struct NamedRead<P> {
    /// The function.
    pub marker: PhantomData<P>,
}

impl<V, In, Out, P: ReadFn<V, In, Out>> Step<V, In, Out> for NamedRead<P> {
    open spec fn pre(&self, w: World<V>, x: In) -> bool {
        P::read_pre(w, x)
    }

    open spec fn rel(&self, next: &Self, w0: World<V>, x: In, w1: World<V>, out: Out) -> bool {
        *next == *self && w1 == w0 && out == P::read_spec(w0, x)
    }

    fn call(&mut self, world: &mut World<V>, x: In) -> (out: Out) {
        P::read_call(&*world, x)
    }
}

/// A named step function: a function of the whole world (read-only) and the input (by reference), with its
/// precondition and result stated as spec functions.
pub trait RefReadFn<V, In, Out> {
    /// When the function may be called.
    spec fn ref_read_pre(w: World<V>, x: In) -> bool;

    /// The function's result.
    spec fn ref_read_spec(w: World<V>, x: In) -> Out;

    /// Call the function.
    fn ref_read_call(w: &World<V>, x: &In) -> (r: Out)
        requires Self::ref_read_pre(*w, *x),
        ensures r == Self::ref_read_spec(*w, *x);
}

/// Step running a [`RefReadFn`].
pub struct NamedRefRead<P> {
    /// The function.
    pub marker: PhantomData<P>,
}

impl<V, In, Out, P: RefReadFn<V, In, Out>> RefStep<V, In, Out> for NamedRefRead<P> {
    open spec fn pre(&self, w: World<V>, x: In) -> bool {
        P::ref_read_pre(w, x)
    }

    open spec fn rel(&self, next: &Self, w0: World<V>, x: In, w1: World<V>, out: Out) -> bool {
        *next == *self && w1 == w0 && out == P::ref_read_spec(w0, x)
    }

    fn call(&mut self, world: &mut World<V>, x: &In) -> (out: Out) {
        P::ref_read_call(&*world, x)
    }
}

/// A step running the named pure function `P`.
pub fn named<P>() -> (r: Named<P>)
{
    Named { marker: PhantomData }
}

/// A by-reference step running the named function `P`.
pub fn named_ref<P>() -> (r: NamedRef<P>)
{
    NamedRef { marker: PhantomData }
}

/// A step running `P` on the resource at `id`.
pub fn named_res<P>(id: ResourceId) -> (r: NamedRes<P>)
    ensures r.id == id,
{
    NamedRes { id, marker: PhantomData }
}

/// A by-reference step running `P` on the resource at `id`.
pub fn named_ref_res<P>(id: ResourceId) -> (r: NamedRefRes<P>)
    ensures r.id == id,
{
    NamedRefRes { id, marker: PhantomData }
}

/// A step running `P` as a write of the resource at `id`.
pub fn named_res_mut<P>(id: ResourceId) -> (r: NamedResMut<P>)
    ensures r.id == id,
{
    NamedResMut { id, marker: PhantomData }
}

/// A by-reference step running `P` as a write of the resource at `id`.
pub fn named_ref_res_mut<P>(id: ResourceId) -> (r: NamedRefResMut<P>)
    ensures r.id == id,
{
    NamedRefResMut { id, marker: PhantomData }
}

/// A step running `P` over a read-only view of the world.
pub fn named_read<P>() -> (r: NamedRead<P>)
{
    NamedRead { marker: PhantomData }
}

/// A by-reference step running `P` over a read-only view of the world.
pub fn named_ref_read<P>() -> (r: NamedRefRead<P>)
{
    NamedRefRead { marker: PhantomData }
}

/// A named step function with private state (a `Local` parameter): a
/// function from the state and the input to the new state and the output,
/// with its precondition and result stated as spec functions.
pub trait LocalFn<A, In, Out> {
    /// When the function may be called.
    spec fn local_pre(a: A, x: In) -> bool;

    /// The function's result: the new state and the output.
    spec fn local_spec(a: A, x: In) -> (A, Out);

    /// Call the function.
    fn local_call(a: &A, x: In) -> (r: (A, Out))
        requires Self::local_pre(*a, x),
        ensures r == Self::local_spec(*a, x);
}

/// Step running a [`LocalFn`] over its own state.
pub struct NamedLocal<A, P> {
    /// The current state.
    pub acc: A,
    /// The function.
    pub marker: PhantomData<P>,
}

impl<V, A, In, Out, P: LocalFn<A, In, Out>> Step<V, In, Out> for NamedLocal<A, P> {
    open spec fn pre(&self, w: World<V>, x: In) -> bool {
        P::local_pre(self.acc, x)
    }

    open spec fn rel(&self, next: &Self, w0: World<V>, x: In, w1: World<V>, out: Out) -> bool {
        w1 == w0 && (next.acc, out) == P::local_spec(self.acc, x)
    }

    fn call(&mut self, world: &mut World<V>, x: In) -> (out: Out) {
        let (a, out) = P::local_call(&self.acc, x);
        self.acc = a;
        out
    }
}

/// A step running `P` over private state starting at `initial`.
pub fn named_local<A, P>(initial: A) -> (r: NamedLocal<A, P>)
    ensures r.acc == initial,
{
    NamedLocal { acc: initial, marker: PhantomData }
}

} // verus!
