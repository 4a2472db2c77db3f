//! DAG pipelines: data-flow graphs with fan-out and merge.
//!
//! [`DagStart`] begins a DAG. The root step takes the event by value;
//! every later node takes its input by reference, so a fork hands one
//! value to several arms by borrow and a merge step reads all arm outputs.
//! Within an arm, `None`/`Err` short-circuits that arm only; sibling arms
//! run regardless.
use vstd::prelude::*;
use core::marker::PhantomData;
use crate::world::World;
use crate::step::{Step, RefStep};
use crate::handler::Handler;
use crate::pipeline::{PipelineOutput, ClonedRef, OptCloned, ResCloned, 
    Then, Guard, Dispatch, OptMap, OptAndThen, OnNone, OptFilter, OptInspect, OkOr, OkOrElse,
    OptUnwrapOr, OptUnwrapOrElse, ResMap, ResAndThen, Catch, MapErr, OrElse, ResInspect, InspectErr,
    ResOk, ResUnwrapOr, ResUnwrapOrElse, Discard, Tap, Tee, Dedup, Route, Not, And, Or, Xor, BatchPipeline,
};

verus! {

// =============================================================================
// Node adapters
// =============================================================================

/// A by-reference step used where a by-value step is expected: the value
/// is borrowed for the call and then dropped.
pub struct Borrowed<S> {
    /// The by-reference step.
    pub s: S,
}

impl<V, T, U, S: RefStep<V, T, U>> Step<V, T, U> for Borrowed<S> {
    open spec fn pre(&self, w: World<V>, x: T) -> bool {
        self.s.pre(w, x)
    }

    open spec fn rel(&self, next: &Self, w0: World<V>, x: T, w1: World<V>, out: U) -> bool {
        self.s.rel(&next.s, w0, x, w1, out)
    }

    fn call(&mut self, world: &mut World<V>, x: T) -> (out: U) {
        self.s.call(world, &x)
    }
}

/// A by-reference chain followed by a by-value step (the body of an arm).
pub struct ArmThen<A, B, M> {
    /// The by-reference chain.
    pub a: A,
    /// The step run on its output.
    pub b: B,
    /// The intermediate type.
    pub marker: PhantomData<M>,
}

impl<V, In, M, Out, A: RefStep<V, In, M>, B: Step<V, M, Out>> RefStep<V, In, Out> for ArmThen<A, B, M> {
    open spec fn pre(&self, w: World<V>, x: In) -> bool {
        &&& self.a.pre(w, x)
        &&& forall|a1: A, w1: World<V>, m: M| #[trigger] self.a.rel(&a1, w, x, w1, m) ==> self.b.pre(w1, m)
    }

    open spec fn rel(&self, next: &Self, w0: World<V>, x: In, w2: World<V>, out: Out) -> bool {
        exists|w1: World<V>, m: M|
            #[trigger] self.a.rel(&next.a, w0, x, w1, m) && self.b.rel(&next.b, w1, m, w2, out)
    }

    fn call(&mut self, world: &mut World<V>, x: &In) -> (out: Out) {
        let m = self.a.call(world, x);
        let ghost w1 = *world;
        let out = self.b.call(world, m);
        assert(old(self).a.rel(&self.a, *old(world), *x, w1, m));
        out
    }
}

/// The empty arm: the borrowed input, by reference, to its first node.
pub struct ArmIdent;

/// Two arms over one borrowed value, run in order; their outputs paired.
pub struct Fork2<A0, A1> {
    /// First arm.
    pub a0: A0,
    /// Second arm.
    pub a1: A1,
}

impl<V, T, O0, O1, A0: RefStep<V, T, O0>, A1: RefStep<V, T, O1>> RefStep<V, T, (O0, O1)> for Fork2<A0, A1> {
    open spec fn pre(&self, w: World<V>, x: T) -> bool {
        &&& self.a0.pre(w, x)
        &&& forall|n0: A0, w1: World<V>, o0: O0| #[trigger] self.a0.rel(&n0, w, x, w1, o0) ==> self.a1.pre(w1, x)
    }

    open spec fn rel(&self, next: &Self, w0: World<V>, x: T, w2: World<V>, out: (O0, O1)) -> bool {
        exists|w1: World<V>| #[trigger] self.a0.rel(&next.a0, w0, x, w1, out.0)
            && self.a1.rel(&next.a1, w1, x, w2, out.1)
    }

    fn call(&mut self, world: &mut World<V>, x: &T) -> (out: (O0, O1)) {
        let o0 = self.a0.call(world, x);
        let ghost w1 = *world;
        let o1 = self.a1.call(world, x);
        let out = (o0, o1);
        assert(old(self).a0.rel(&self.a0, *old(world), *x, w1, out.0));
        out
    }
}

/// Three arms over one borrowed value, run in order; their outputs as a
/// triple.
pub struct Fork3<A0, A1, A2> {
    /// First arm.
    pub a0: A0,
    /// Second arm.
    pub a1: A1,
    /// Third arm.
    pub a2: A2,
}

impl<V, T, O0, O1, O2, A0: RefStep<V, T, O0>, A1: RefStep<V, T, O1>, A2: RefStep<V, T, O2>>
    RefStep<V, T, (O0, O1, O2)> for Fork3<A0, A1, A2> {
    open spec fn pre(&self, w: World<V>, x: T) -> bool {
        &&& self.a0.pre(w, x)
        &&& forall|n0: A0, w1: World<V>, o0: O0| #[trigger] self.a0.rel(&n0, w, x, w1, o0) ==> {
            &&& self.a1.pre(w1, x)
            &&& forall|n1: A1, w2: World<V>, o1: O1| #[trigger] self.a1.rel(&n1, w1, x, w2, o1) ==> self.a2.pre(w2, x)
        }
    }

    open spec fn rel(&self, next: &Self, w0: World<V>, x: T, w3: World<V>, out: (O0, O1, O2)) -> bool {
        exists|w1: World<V>, w2: World<V>| #[trigger] self.a0.rel(&next.a0, w0, x, w1, out.0)
            && #[trigger] self.a1.rel(&next.a1, w1, x, w2, out.1)
            && self.a2.rel(&next.a2, w2, x, w3, out.2)
    }

    fn call(&mut self, world: &mut World<V>, x: &T) -> (out: (O0, O1, O2)) {
        let o0 = self.a0.call(world, x);
        let ghost w1 = *world;
        let o1 = self.a1.call(world, x);
        let ghost w2 = *world;
        let o2 = self.a2.call(world, x);
        let out = (o0, o1, o2);
        assert(old(self).a0.rel(&self.a0, *old(world), *x, w1, out.0));
        assert(old(self).a1.rel(&self.a1, w1, *x, w2, out.1));
        out
    }
}

/// Four arms over one borrowed value, run in order; their outputs as a
/// quadruple.
pub struct Fork4<A0, A1, A2, A3> {
    /// First arm.
    pub a0: A0,
    /// Second arm.
    pub a1: A1,
    /// Third arm.
    pub a2: A2,
    /// Fourth arm.
    pub a3: A3,
}

impl<V, T, O0, O1, O2, O3, A0: RefStep<V, T, O0>, A1: RefStep<V, T, O1>, A2: RefStep<V, T, O2>, A3: RefStep<V, T, O3>>
    RefStep<V, T, (O0, O1, O2, O3)> for Fork4<A0, A1, A2, A3> {
    open spec fn pre(&self, w: World<V>, x: T) -> bool {
        &&& self.a0.pre(w, x)
        &&& forall|n0: A0, w1: World<V>, o0: O0| #[trigger] self.a0.rel(&n0, w, x, w1, o0) ==> {
            &&& self.a1.pre(w1, x)
            &&& forall|n1: A1, w2: World<V>, o1: O1| #[trigger] self.a1.rel(&n1, w1, x, w2, o1) ==> {
                &&& self.a2.pre(w2, x)
                &&& forall|n2: A2, w3: World<V>, o2: O2| #[trigger] self.a2.rel(&n2, w2, x, w3, o2) ==> self.a3.pre(w3, x)
            }
        }
    }

    open spec fn rel(&self, next: &Self, w0: World<V>, x: T, w4: World<V>, out: (O0, O1, O2, O3)) -> bool {
        exists|w1: World<V>, w2: World<V>, w3: World<V>| #[trigger] self.a0.rel(&next.a0, w0, x, w1, out.0)
            && #[trigger] self.a1.rel(&next.a1, w1, x, w2, out.1)
            && #[trigger] self.a2.rel(&next.a2, w2, x, w3, out.2)
            && self.a3.rel(&next.a3, w3, x, w4, out.3)
    }

    fn call(&mut self, world: &mut World<V>, x: &T) -> (out: (O0, O1, O2, O3)) {
        let o0 = self.a0.call(world, x);
        let ghost w1 = *world;
        let o1 = self.a1.call(world, x);
        let ghost w2 = *world;
        let o2 = self.a2.call(world, x);
        let ghost w3 = *world;
        let o3 = self.a3.call(world, x);
        let out = (o0, o1, o2, o3);
        assert(old(self).a0.rel(&self.a0, *old(world), *x, w1, out.0));
        assert(old(self).a1.rel(&self.a1, w1, *x, w2, out.1));
        assert(old(self).a2.rel(&self.a2, w2, *x, w3, out.2));
        out
    }
}

/// A merge function of two borrowed arm outputs.
pub struct Merge2<F> {
    /// The function.
    pub f: F,
}

/// Wrap a two-input merge function.
pub fn merge2<F>(f: F) -> (r: Merge2<F>)
    ensures r.f == f,
{
    Merge2 { f }
}

impl<V, A, B, Out, F: Fn(&A, &B) -> Out> RefStep<V, (A, B), Out> for Merge2<F> {
    open spec fn pre(&self, w: World<V>, x: (A, B)) -> bool {
        call_requires(self.f, (&x.0, &x.1))
    }

    open spec fn rel(&self, next: &Self, w0: World<V>, x: (A, B), w1: World<V>, out: Out) -> bool {
        *next == *self && w1 == w0 && call_ensures(self.f, (&x.0, &x.1), out)
    }

    fn call(&mut self, world: &mut World<V>, x: &(A, B)) -> (out: Out) {
        (self.f)(&x.0, &x.1)
    }
}

/// A merge function of three borrowed arm outputs.
pub struct Merge3<F> {
    /// The function.
    pub f: F,
}

/// Wrap a three-input merge function.
pub fn merge3<F>(f: F) -> (r: Merge3<F>)
    ensures r.f == f,
{
    Merge3 { f }
}

impl<V, A, B, C, Out, F: Fn(&A, &B, &C) -> Out> RefStep<V, (A, B, C), Out> for Merge3<F> {
    open spec fn pre(&self, w: World<V>, x: (A, B, C)) -> bool {
        call_requires(self.f, (&x.0, &x.1, &x.2))
    }

    open spec fn rel(&self, next: &Self, w0: World<V>, x: (A, B, C), w1: World<V>, out: Out) -> bool {
        *next == *self && w1 == w0 && call_ensures(self.f, (&x.0, &x.1, &x.2), out)
    }

    fn call(&mut self, world: &mut World<V>, x: &(A, B, C)) -> (out: Out) {
        (self.f)(&x.0, &x.1, &x.2)
    }
}

/// A merge function of four borrowed arm outputs.
pub struct Merge4<F> {
    /// The function.
    pub f: F,
}

/// Wrap a four-input merge function.
pub fn merge4<F>(f: F) -> (r: Merge4<F>)
    ensures r.f == f,
{
    Merge4 { f }
}

impl<V, A, B, C, D, Out, F: Fn(&A, &B, &C, &D) -> Out> RefStep<V, (A, B, C, D), Out> for Merge4<F> {
    open spec fn pre(&self, w: World<V>, x: (A, B, C, D)) -> bool {
        call_requires(self.f, (&x.0, &x.1, &x.2, &x.3))
    }

    open spec fn rel(&self, next: &Self, w0: World<V>, x: (A, B, C, D), w1: World<V>, out: Out) -> bool {
        *next == *self && w1 == w0 && call_ensures(self.f, (&x.0, &x.1, &x.2, &x.3), out)
    }

    fn call(&mut self, world: &mut World<V>, x: &(A, B, C, D)) -> (out: Out) {
        (self.f)(&x.0, &x.1, &x.2, &x.3)
    }
}

// =============================================================================
// Builders
// =============================================================================

/// Entry point of a DAG over event type `E`.
pub struct DagStart<V, E> {
    /// Types the DAG is built for.
    pub marker: PhantomData<(V, E)>,
}

impl<V, E> DagStart<V, E> {
    /// Begin a DAG.
    pub fn new() -> (r: Self) {
        DagStart { marker: PhantomData }
    }

    /// The root node: takes the event by value.
    pub fn root<Out, S: Step<V, E, Out>>(self, s: S) -> (r: DagChain<V, E, Out, S>)
        ensures r.chain == s,
    {
        DagChain { chain: s, marker: PhantomData }
    }
}

/// The main chain of a DAG: `chain` maps the event to `Out`.
pub struct DagChain<V, E, Out, C> {
    /// The chain built so far.
    pub chain: C,
    /// Types the chain is built for.
    pub marker: PhantomData<(V, E, Out)>,
}

/// Entry point of an arm over a borrowed `In`.
pub struct DagArmStart<V, In> {
    /// Types the arm is built for.
    pub marker: PhantomData<(V, In)>,
}

impl<V, In> DagArmStart<V, In> {
    /// Begin an arm.
    pub fn new() -> (r: Self) {
        DagArmStart { marker: PhantomData }
    }

    /// The arm's first node: takes the fork value by reference.
    pub fn then_step<Out, S: RefStep<V, In, Out>>(self, s: S) -> (r: DagArm<V, In, Out, S>)
        ensures r.chain == s,
    {
        DagArm { chain: s, marker: PhantomData }
    }
}

/// An arm of a fork: `chain` maps a borrowed `In` to `Out`.
pub struct DagArm<V, In, Out, C> {
    /// The arm's chain.
    pub chain: C,
    /// Types the arm is built for.
    pub marker: PhantomData<(V, In, Out)>,
}

/// A fork of the main chain whose output `T` the arms borrow.
pub struct DagChainFork<V, E, T, C, Arms> {
    /// The chain before the fork.
    pub chain: C,
    /// The arms added so far, as a tuple of their chains.
    pub arms: Arms,
    /// Types the fork is built for.
    pub marker: PhantomData<(V, E, T)>,
}

/// A fork inside an arm.
pub struct DagArmFork<V, In, T, C, Arms> {
    /// The arm's chain before the fork.
    pub chain: C,
    /// The arms added so far, as a tuple of their chains.
    pub arms: Arms,
    /// Types the fork is built for.
    pub marker: PhantomData<(V, In, T)>,
}

/// A built DAG: a handler that runs the chain per event.
pub struct Dag<V, E, C> {
    /// The chain.
    pub chain: C,
    /// Types the DAG is built for.
    pub marker: PhantomData<(V, E)>,
}

impl<V, E, C: Step<V, E, ()>> Handler<V, E> for Dag<V, E, C> {
    open spec fn h_pre(&self, w: World<V>, e: E) -> bool {
        self.chain.pre(w, e)
    }

    open spec fn h_rel(&self, w0: World<V>, e: E, w1: World<V>) -> bool {
        exists|c1: C| self.chain.rel(&c1, w0, e, w1, ())
    }

    fn run(&mut self, world: &mut World<V>, event: E) {
        let ghost e = event;
        self.chain.call(world, event);
        assert(old(self).chain.rel(&self.chain, *old(world), e, *world, ()));
    }

    open spec fn h_name(&self) -> &'static str {
        "dag::Dag"
    }

    fn name(&self) -> &'static str {
        "dag::Dag"
    }
}

impl<V, E, C: Step<V, E, ()>> Dag<V, E, C> {
    /// Run the DAG once on `event`, with the chain's own contract.
    pub fn run_chain(&mut self, world: &mut World<V>, event: E)
        requires old(self).chain.pre(*old(world), event),
        ensures old(self).chain.rel(&final(self).chain, *old(world), event, *final(world), ()),
    {
        self.chain.call(world, event)
    }
}

impl<V, E, Out, C: Step<V, E, Out>> DagChain<V, E, Out, C> {
    /// Run the chain once on `event`.
    pub fn run(&mut self, world: &mut World<V>, event: E) -> (out: Out)
        requires old(self).chain.pre(*old(world), event),
        ensures old(self).chain.rel(&final(self).chain, *old(world), event, *final(world), out),
    {
        self.chain.call(world, event)
    }

    /// Finalize into a batch runner with an input buffer of the given
    /// initial capacity.
    pub fn build_batch(self, capacity: usize) -> (r: BatchPipeline<V, E, Out, C>)
        where Out: PipelineOutput,
        ensures r.chain == self.chain, r.input@.len() == 0,
    {
        BatchPipeline { input: Vec::with_capacity(capacity), chain: self.chain, marker: PhantomData }
    }

    /// Fork: arms added next borrow the chain's output.
    pub fn fork(self) -> (r: DagChainFork<V, E, Out, C, ()>)
        ensures r.chain == self.chain,
    {
        DagChainFork { chain: self.chain, arms: (), marker: PhantomData }
    }
}

impl<V, E, C: Step<V, E, ()>> DagChain<V, E, (), C> {
    /// Finalize a unit-returning chain into a [`Dag`] handler.
    pub fn build(self) -> (r: Dag<V, E, C>)
        ensures r.chain == self.chain,
    {
        Dag { chain: self.chain, marker: PhantomData }
    }
}

impl<V, In, Out, C: RefStep<V, In, Out>> DagArm<V, In, Out, C> {
    /// Run the arm once on a borrowed input.
    pub fn run(&mut self, world: &mut World<V>, input: &In) -> (out: Out)
        requires old(self).chain.pre(*old(world), *input),
        ensures old(self).chain.rel(&final(self).chain, *old(world), *input, *final(world), out),
    {
        self.chain.call(world, input)
    }

    /// Fork inside the arm.
    pub fn fork(self) -> (r: DagArmFork<V, In, Out, C, ()>)
        ensures r.chain == self.chain,
    {
        DagArmFork { chain: self.chain, arms: (), marker: PhantomData }
    }
}

impl<V, E, Out, C: Step<V, E, Out>> DagChain<V, E, Out, C> {
    /// Append a node that borrows the output.
    pub fn then_step<NewOut, S: RefStep<V, Out, NewOut>>(self, s: S) -> (r: DagChain<V, E, NewOut, Then<C, Borrowed<S>, Out>>)
        ensures r.chain == (Then { a: self.chain, b: Borrowed { s }, marker: PhantomData::<Out> }),
    {
        DagChain { chain: Then { a: self.chain, b: Borrowed { s }, marker: PhantomData }, marker: PhantomData }
    }

    /// Hand the output to a handler.
    pub fn dispatch<H: Handler<V, Out>>(self, h: H) -> (r: DagChain<V, E, (), Then<C, Dispatch<H>, Out>>)
        ensures r.chain == (Then { a: self.chain, b: Dispatch { h }, marker: PhantomData::<Out> }),
    {
        DagChain { chain: Then { a: self.chain, b: Dispatch { h }, marker: PhantomData }, marker: PhantomData }
    }

    /// `Some(out)` when a by-reference predicate holds, `None` otherwise.
    pub fn guard<S: RefStep<V, Out, bool>>(self, s: S) -> (r: DagChain<V, E, Option<Out>, Then<C, Guard<S>, Out>>)
        ensures r.chain == (Then { a: self.chain, b: Guard { s }, marker: PhantomData::<Out> }),
    {
        DagChain { chain: Then { a: self.chain, b: Guard { s }, marker: PhantomData }, marker: PhantomData }
    }

    /// Observe the output by reference.
    pub fn tap<S: RefStep<V, Out, ()>>(self, s: S) -> (r: DagChain<V, E, Out, Then<C, Tap<S>, Out>>)
        ensures r.chain == (Then { a: self.chain, b: Tap { s }, marker: PhantomData::<Out> }),
    {
        DagChain { chain: Then { a: self.chain, b: Tap { s }, marker: PhantomData }, marker: PhantomData }
    }

    /// Run a side arm on a borrow of the output.
    pub fn tee<S: RefStep<V, Out, ()>>(self, s: S) -> (r: DagChain<V, E, Out, Then<C, Tee<S>, Out>>)
        ensures r.chain == (Then { a: self.chain, b: Tee { s }, marker: PhantomData::<Out> }),
    {
        DagChain { chain: Then { a: self.chain, b: Tee { s }, marker: PhantomData }, marker: PhantomData }
    }

    /// Suppress consecutive equal outputs.
    pub fn dedup(self) -> (r: DagChain<V, E, Option<Out>, Then<C, Dedup<Out>, Out>>)
        where Out: PartialEq + Clone,
        ensures r.chain == (Then { a: self.chain, b: Dedup::<Out> { prev: None }, marker: PhantomData::<Out> }),
    {
        DagChain { chain: Then { a: self.chain, b: Dedup::<Out> { prev: None }, marker: PhantomData }, marker: PhantomData }
    }

    /// Run one of two by-reference arms, chosen by a by-reference predicate.
    pub fn route<U, P: RefStep<V, Out, bool>, A0: RefStep<V, Out, U>, A1: RefStep<V, Out, U>>(self, pred: P, on_true: A0, on_false: A1) -> (r: DagChain<V, E, U, Then<C, Route<P, Borrowed<A0>, Borrowed<A1>>, Out>>)
        ensures r.chain == (Then { a: self.chain, b: Route { pred, on_true: Borrowed { s: on_true }, on_false: Borrowed { s: on_false } }, marker: PhantomData::<Out> }),
    {
        DagChain { chain: Then { a: self.chain, b: Route { pred, on_true: Borrowed { s: on_true }, on_false: Borrowed { s: on_false } }, marker: PhantomData }, marker: PhantomData }
    }
}
impl<V, E, T, C: Step<V, E, Option<T>>> DagChain<V, E, Option<T>, C> {
    /// Apply a node to the borrowed `Some` value.
    pub fn map<U, S: RefStep<V, T, U>>(self, s: S) -> (r: DagChain<V, E, Option<U>, Then<C, OptMap<Borrowed<S>>, Option<T>>>)
        ensures r.chain == (Then { a: self.chain, b: OptMap { s: Borrowed { s } }, marker: PhantomData::<Option<T>> }),
    {
        DagChain { chain: Then { a: self.chain, b: OptMap { s: Borrowed { s } }, marker: PhantomData }, marker: PhantomData }
    }

    /// Apply an `Option`-returning node to the borrowed `Some` value.
    pub fn and_then<U, S: RefStep<V, T, Option<U>>>(self, s: S) -> (r: DagChain<V, E, Option<U>, Then<C, OptAndThen<Borrowed<S>>, Option<T>>>)
        ensures r.chain == (Then { a: self.chain, b: OptAndThen { s: Borrowed { s } }, marker: PhantomData::<Option<T>> }),
    {
        DagChain { chain: Then { a: self.chain, b: OptAndThen { s: Borrowed { s } }, marker: PhantomData }, marker: PhantomData }
    }

    /// Run a side effect when the output is `None`.
    pub fn on_none<S: Step<V, (), ()>>(self, s: S) -> (r: DagChain<V, E, Option<T>, Then<C, OnNone<S>, Option<T>>>)
        ensures r.chain == (Then { a: self.chain, b: OnNone { s }, marker: PhantomData::<Option<T>> }),
    {
        DagChain { chain: Then { a: self.chain, b: OnNone { s }, marker: PhantomData }, marker: PhantomData }
    }

    /// Keep `Some` values satisfying a by-reference predicate.
    pub fn filter<S: RefStep<V, T, bool>>(self, s: S) -> (r: DagChain<V, E, Option<T>, Then<C, OptFilter<S>, Option<T>>>)
        ensures r.chain == (Then { a: self.chain, b: OptFilter { s }, marker: PhantomData::<Option<T>> }),
    {
        DagChain { chain: Then { a: self.chain, b: OptFilter { s }, marker: PhantomData }, marker: PhantomData }
    }

    /// Observe the `Some` value by reference.
    pub fn inspect<S: RefStep<V, T, ()>>(self, s: S) -> (r: DagChain<V, E, Option<T>, Then<C, OptInspect<S>, Option<T>>>)
        ensures r.chain == (Then { a: self.chain, b: OptInspect { s }, marker: PhantomData::<Option<T>> }),
    {
        DagChain { chain: Then { a: self.chain, b: OptInspect { s }, marker: PhantomData }, marker: PhantomData }
    }

    /// `None` becomes `Err(err)`.
    pub fn ok_or<Er: Clone>(self, err: Er) -> (r: DagChain<V, E, Result<T, Er>, Then<C, OkOr<Er>, Option<T>>>)
        ensures r.chain == (Then { a: self.chain, b: OkOr { err }, marker: PhantomData::<Option<T>> }),
    {
        DagChain { chain: Then { a: self.chain, b: OkOr { err }, marker: PhantomData }, marker: PhantomData }
    }

    /// `None` becomes `Err` of a producer.
    pub fn ok_or_else<Er, S: Step<V, (), Er>>(self, s: S) -> (r: DagChain<V, E, Result<T, Er>, Then<C, OkOrElse<S>, Option<T>>>)
        ensures r.chain == (Then { a: self.chain, b: OkOrElse { s }, marker: PhantomData::<Option<T>> }),
    {
        DagChain { chain: Then { a: self.chain, b: OkOrElse { s }, marker: PhantomData }, marker: PhantomData }
    }

    /// `None` becomes a default.
    pub fn unwrap_or(self, default: T) -> (r: DagChain<V, E, T, Then<C, OptUnwrapOr<T>, Option<T>>>)
        where T: Clone,
        ensures r.chain == (Then { a: self.chain, b: OptUnwrapOr { default }, marker: PhantomData::<Option<T>> }),
    {
        DagChain { chain: Then { a: self.chain, b: OptUnwrapOr { default }, marker: PhantomData }, marker: PhantomData }
    }

    /// `None` becomes a produced value.
    pub fn unwrap_or_else<S: Step<V, (), T>>(self, s: S) -> (r: DagChain<V, E, T, Then<C, OptUnwrapOrElse<S>, Option<T>>>)
        ensures r.chain == (Then { a: self.chain, b: OptUnwrapOrElse { s }, marker: PhantomData::<Option<T>> }),
    {
        DagChain { chain: Then { a: self.chain, b: OptUnwrapOrElse { s }, marker: PhantomData }, marker: PhantomData }
    }
}
impl<V, E, T, Er, C: Step<V, E, Result<T, Er>>> DagChain<V, E, Result<T, Er>, C> {
    /// Apply a node to the borrowed `Ok` value.
    pub fn map<U, S: RefStep<V, T, U>>(self, s: S) -> (r: DagChain<V, E, Result<U, Er>, Then<C, ResMap<Borrowed<S>>, Result<T, Er>>>)
        ensures r.chain == (Then { a: self.chain, b: ResMap { s: Borrowed { s } }, marker: PhantomData::<Result<T, Er>> }),
    {
        DagChain { chain: Then { a: self.chain, b: ResMap { s: Borrowed { s } }, marker: PhantomData }, marker: PhantomData }
    }

    /// Apply a `Result`-returning node to the borrowed `Ok` value.
    pub fn and_then<U, S: RefStep<V, T, Result<U, Er>>>(self, s: S) -> (r: DagChain<V, E, Result<U, Er>, Then<C, ResAndThen<Borrowed<S>>, Result<T, Er>>>)
        ensures r.chain == (Then { a: self.chain, b: ResAndThen { s: Borrowed { s } }, marker: PhantomData::<Result<T, Er>> }),
    {
        DagChain { chain: Then { a: self.chain, b: ResAndThen { s: Borrowed { s } }, marker: PhantomData }, marker: PhantomData }
    }

    /// Handle the borrowed error and continue with `Option`.
    pub fn catch<S: RefStep<V, Er, ()>>(self, s: S) -> (r: DagChain<V, E, Option<T>, Then<C, Catch<Borrowed<S>>, Result<T, Er>>>)
        ensures r.chain == (Then { a: self.chain, b: Catch { s: Borrowed { s } }, marker: PhantomData::<Result<T, Er>> }),
    {
        DagChain { chain: Then { a: self.chain, b: Catch { s: Borrowed { s } }, marker: PhantomData }, marker: PhantomData }
    }

    /// Transform the error.
    pub fn map_err<E2, S: Step<V, Er, E2>>(self, s: S) -> (r: DagChain<V, E, Result<T, E2>, Then<C, MapErr<S>, Result<T, Er>>>)
        ensures r.chain == (Then { a: self.chain, b: MapErr { s }, marker: PhantomData::<Result<T, Er>> }),
    {
        DagChain { chain: Then { a: self.chain, b: MapErr { s }, marker: PhantomData }, marker: PhantomData }
    }

    /// Recover from the error.
    pub fn or_else<E2, S: Step<V, Er, Result<T, E2>>>(self, s: S) -> (r: DagChain<V, E, Result<T, E2>, Then<C, OrElse<S>, Result<T, Er>>>)
        ensures r.chain == (Then { a: self.chain, b: OrElse { s }, marker: PhantomData::<Result<T, Er>> }),
    {
        DagChain { chain: Then { a: self.chain, b: OrElse { s }, marker: PhantomData }, marker: PhantomData }
    }

    /// Observe the `Ok` value by reference.
    pub fn inspect<S: RefStep<V, T, ()>>(self, s: S) -> (r: DagChain<V, E, Result<T, Er>, Then<C, ResInspect<S>, Result<T, Er>>>)
        ensures r.chain == (Then { a: self.chain, b: ResInspect { s }, marker: PhantomData::<Result<T, Er>> }),
    {
        DagChain { chain: Then { a: self.chain, b: ResInspect { s }, marker: PhantomData }, marker: PhantomData }
    }

    /// Observe the error by reference.
    pub fn inspect_err<S: RefStep<V, Er, ()>>(self, s: S) -> (r: DagChain<V, E, Result<T, Er>, Then<C, InspectErr<S>, Result<T, Er>>>)
        ensures r.chain == (Then { a: self.chain, b: InspectErr { s }, marker: PhantomData::<Result<T, Er>> }),
    {
        DagChain { chain: Then { a: self.chain, b: InspectErr { s }, marker: PhantomData }, marker: PhantomData }
    }

    /// Discard the error.
    pub fn ok(self) -> (r: DagChain<V, E, Option<T>, Then<C, ResOk, Result<T, Er>>>)
        ensures r.chain == (Then { a: self.chain, b: ResOk, marker: PhantomData::<Result<T, Er>> }),
    {
        DagChain { chain: Then { a: self.chain, b: ResOk, marker: PhantomData }, marker: PhantomData }
    }

    /// `Err` becomes a default.
    pub fn unwrap_or(self, default: T) -> (r: DagChain<V, E, T, Then<C, ResUnwrapOr<T>, Result<T, Er>>>)
        where T: Clone,
        ensures r.chain == (Then { a: self.chain, b: ResUnwrapOr { default }, marker: PhantomData::<Result<T, Er>> }),
    {
        DagChain { chain: Then { a: self.chain, b: ResUnwrapOr { default }, marker: PhantomData }, marker: PhantomData }
    }

    /// `Err` becomes a value computed from the error.
    pub fn unwrap_or_else<S: Step<V, Er, T>>(self, s: S) -> (r: DagChain<V, E, T, Then<C, ResUnwrapOrElse<S>, Result<T, Er>>>)
        ensures r.chain == (Then { a: self.chain, b: ResUnwrapOrElse { s }, marker: PhantomData::<Result<T, Er>> }),
    {
        DagChain { chain: Then { a: self.chain, b: ResUnwrapOrElse { s }, marker: PhantomData }, marker: PhantomData }
    }
}
impl<'a, V, E, T: Clone, C: Step<V, E, &'a T>> DagChain<V, E, &'a T, C> {
    /// Clone the borrowed output: `&T` becomes `T`.
    pub fn cloned(self) -> (r: DagChain<V, E, T, Then<C, ClonedRef, &'a T>>)
        ensures r.chain == (Then { a: self.chain, b: ClonedRef, marker: PhantomData::<&'a T> }),
    {
        DagChain { chain: Then { a: self.chain, b: ClonedRef, marker: PhantomData }, marker: PhantomData }
    }
}

impl<'a, V, E, T: Clone, C: Step<V, E, Option<&'a T>>> DagChain<V, E, Option<&'a T>, C> {
    /// Clone the borrowed `Some` value: `Option<&T>` becomes `Option<T>`.
    pub fn cloned(self) -> (r: DagChain<V, E, Option<T>, Then<C, OptCloned, Option<&'a T>>>)
        ensures r.chain == (Then { a: self.chain, b: OptCloned, marker: PhantomData::<Option<&'a T>> }),
    {
        DagChain { chain: Then { a: self.chain, b: OptCloned, marker: PhantomData }, marker: PhantomData }
    }
}

impl<'a, V, E, T: Clone, Er, C: Step<V, E, Result<&'a T, Er>>> DagChain<V, E, Result<&'a T, Er>, C> {
    /// Clone the borrowed `Ok` value: `Result<&T, Er>` becomes `Result<T, Er>`.
    pub fn cloned(self) -> (r: DagChain<V, E, Result<T, Er>, Then<C, ResCloned, Result<&'a T, Er>>>)
        ensures r.chain == (Then { a: self.chain, b: ResCloned, marker: PhantomData::<Result<&'a T, Er>> }),
    {
        DagChain { chain: Then { a: self.chain, b: ResCloned, marker: PhantomData }, marker: PhantomData }
    }
}

impl<V, E, C: Step<V, E, bool>> DagChain<V, E, bool, C> {
    /// Logical negation.
    pub fn not(self) -> (r: DagChain<V, E, bool, Then<C, Not, bool>>)
        ensures r.chain == (Then { a: self.chain, b: Not, marker: PhantomData::<bool> }),
    {
        DagChain { chain: Then { a: self.chain, b: Not, marker: PhantomData }, marker: PhantomData }
    }

    /// Short-circuit AND with a producer.
    pub fn and<S: Step<V, (), bool>>(self, s: S) -> (r: DagChain<V, E, bool, Then<C, And<S>, bool>>)
        ensures r.chain == (Then { a: self.chain, b: And { s }, marker: PhantomData::<bool> }),
    {
        DagChain { chain: Then { a: self.chain, b: And { s }, marker: PhantomData }, marker: PhantomData }
    }

    /// Short-circuit OR with a producer.
    pub fn or<S: Step<V, (), bool>>(self, s: S) -> (r: DagChain<V, E, bool, Then<C, Or<S>, bool>>)
        ensures r.chain == (Then { a: self.chain, b: Or { s }, marker: PhantomData::<bool> }),
    {
        DagChain { chain: Then { a: self.chain, b: Or { s }, marker: PhantomData }, marker: PhantomData }
    }

    /// XOR with a producer.
    pub fn xor<S: Step<V, (), bool>>(self, s: S) -> (r: DagChain<V, E, bool, Then<C, Xor<S>, bool>>)
        ensures r.chain == (Then { a: self.chain, b: Xor { s }, marker: PhantomData::<bool> }),
    {
        DagChain { chain: Then { a: self.chain, b: Xor { s }, marker: PhantomData }, marker: PhantomData }
    }
}
impl<V, In, Out, C: RefStep<V, In, Out>> DagArm<V, In, Out, C> {
    /// Append a node that borrows the output.
    pub fn then_step<NewOut, S: RefStep<V, Out, NewOut>>(self, s: S) -> (r: DagArm<V, In, NewOut, ArmThen<C, Borrowed<S>, Out>>)
        ensures r.chain == (ArmThen { a: self.chain, b: Borrowed { s }, marker: PhantomData::<Out> }),
    {
        DagArm { chain: ArmThen { a: self.chain, b: Borrowed { s }, marker: PhantomData }, marker: PhantomData }
    }

    /// Hand the output to a handler.
    pub fn dispatch<H: Handler<V, Out>>(self, h: H) -> (r: DagArm<V, In, (), ArmThen<C, Dispatch<H>, Out>>)
        ensures r.chain == (ArmThen { a: self.chain, b: Dispatch { h }, marker: PhantomData::<Out> }),
    {
        DagArm { chain: ArmThen { a: self.chain, b: Dispatch { h }, marker: PhantomData }, marker: PhantomData }
    }

    /// `Some(out)` when a by-reference predicate holds, `None` otherwise.
    pub fn guard<S: RefStep<V, Out, bool>>(self, s: S) -> (r: DagArm<V, In, Option<Out>, ArmThen<C, Guard<S>, Out>>)
        ensures r.chain == (ArmThen { a: self.chain, b: Guard { s }, marker: PhantomData::<Out> }),
    {
        DagArm { chain: ArmThen { a: self.chain, b: Guard { s }, marker: PhantomData }, marker: PhantomData }
    }

    /// Observe the output by reference.
    pub fn tap<S: RefStep<V, Out, ()>>(self, s: S) -> (r: DagArm<V, In, Out, ArmThen<C, Tap<S>, Out>>)
        ensures r.chain == (ArmThen { a: self.chain, b: Tap { s }, marker: PhantomData::<Out> }),
    {
        DagArm { chain: ArmThen { a: self.chain, b: Tap { s }, marker: PhantomData }, marker: PhantomData }
    }

    /// Run a side arm on a borrow of the output.
    pub fn tee<S: RefStep<V, Out, ()>>(self, s: S) -> (r: DagArm<V, In, Out, ArmThen<C, Tee<S>, Out>>)
        ensures r.chain == (ArmThen { a: self.chain, b: Tee { s }, marker: PhantomData::<Out> }),
    {
        DagArm { chain: ArmThen { a: self.chain, b: Tee { s }, marker: PhantomData }, marker: PhantomData }
    }

    /// Suppress consecutive equal outputs.
    pub fn dedup(self) -> (r: DagArm<V, In, Option<Out>, ArmThen<C, Dedup<Out>, Out>>)
        where Out: PartialEq + Clone,
        ensures r.chain == (ArmThen { a: self.chain, b: Dedup::<Out> { prev: None }, marker: PhantomData::<Out> }),
    {
        DagArm { chain: ArmThen { a: self.chain, b: Dedup::<Out> { prev: None }, marker: PhantomData }, marker: PhantomData }
    }

    /// Run one of two by-reference arms, chosen by a by-reference predicate.
    pub fn route<U, P: RefStep<V, Out, bool>, A0: RefStep<V, Out, U>, A1: RefStep<V, Out, U>>(self, pred: P, on_true: A0, on_false: A1) -> (r: DagArm<V, In, U, ArmThen<C, Route<P, Borrowed<A0>, Borrowed<A1>>, Out>>)
        ensures r.chain == (ArmThen { a: self.chain, b: Route { pred, on_true: Borrowed { s: on_true }, on_false: Borrowed { s: on_false } }, marker: PhantomData::<Out> }),
    {
        DagArm { chain: ArmThen { a: self.chain, b: Route { pred, on_true: Borrowed { s: on_true }, on_false: Borrowed { s: on_false } }, marker: PhantomData }, marker: PhantomData }
    }
}
impl<V, In, T, C: RefStep<V, In, Option<T>>> DagArm<V, In, Option<T>, C> {
    /// Apply a node to the borrowed `Some` value.
    pub fn map<U, S: RefStep<V, T, U>>(self, s: S) -> (r: DagArm<V, In, Option<U>, ArmThen<C, OptMap<Borrowed<S>>, Option<T>>>)
        ensures r.chain == (ArmThen { a: self.chain, b: OptMap { s: Borrowed { s } }, marker: PhantomData::<Option<T>> }),
    {
        DagArm { chain: ArmThen { a: self.chain, b: OptMap { s: Borrowed { s } }, marker: PhantomData }, marker: PhantomData }
    }

    /// Apply an `Option`-returning node to the borrowed `Some` value.
    pub fn and_then<U, S: RefStep<V, T, Option<U>>>(self, s: S) -> (r: DagArm<V, In, Option<U>, ArmThen<C, OptAndThen<Borrowed<S>>, Option<T>>>)
        ensures r.chain == (ArmThen { a: self.chain, b: OptAndThen { s: Borrowed { s } }, marker: PhantomData::<Option<T>> }),
    {
        DagArm { chain: ArmThen { a: self.chain, b: OptAndThen { s: Borrowed { s } }, marker: PhantomData }, marker: PhantomData }
    }

    /// Run a side effect when the output is `None`.
    pub fn on_none<S: Step<V, (), ()>>(self, s: S) -> (r: DagArm<V, In, Option<T>, ArmThen<C, OnNone<S>, Option<T>>>)
        ensures r.chain == (ArmThen { a: self.chain, b: OnNone { s }, marker: PhantomData::<Option<T>> }),
    {
        DagArm { chain: ArmThen { a: self.chain, b: OnNone { s }, marker: PhantomData }, marker: PhantomData }
    }

    /// Keep `Some` values satisfying a by-reference predicate.
    pub fn filter<S: RefStep<V, T, bool>>(self, s: S) -> (r: DagArm<V, In, Option<T>, ArmThen<C, OptFilter<S>, Option<T>>>)
        ensures r.chain == (ArmThen { a: self.chain, b: OptFilter { s }, marker: PhantomData::<Option<T>> }),
    {
        DagArm { chain: ArmThen { a: self.chain, b: OptFilter { s }, marker: PhantomData }, marker: PhantomData }
    }

    /// Observe the `Some` value by reference.
    pub fn inspect<S: RefStep<V, T, ()>>(self, s: S) -> (r: DagArm<V, In, Option<T>, ArmThen<C, OptInspect<S>, Option<T>>>)
        ensures r.chain == (ArmThen { a: self.chain, b: OptInspect { s }, marker: PhantomData::<Option<T>> }),
    {
        DagArm { chain: ArmThen { a: self.chain, b: OptInspect { s }, marker: PhantomData }, marker: PhantomData }
    }

    /// `None` becomes `Err(err)`.
    pub fn ok_or<Er: Clone>(self, err: Er) -> (r: DagArm<V, In, Result<T, Er>, ArmThen<C, OkOr<Er>, Option<T>>>)
        ensures r.chain == (ArmThen { a: self.chain, b: OkOr { err }, marker: PhantomData::<Option<T>> }),
    {
        DagArm { chain: ArmThen { a: self.chain, b: OkOr { err }, marker: PhantomData }, marker: PhantomData }
    }

    /// `None` becomes `Err` of a producer.
    pub fn ok_or_else<Er, S: Step<V, (), Er>>(self, s: S) -> (r: DagArm<V, In, Result<T, Er>, ArmThen<C, OkOrElse<S>, Option<T>>>)
        ensures r.chain == (ArmThen { a: self.chain, b: OkOrElse { s }, marker: PhantomData::<Option<T>> }),
    {
        DagArm { chain: ArmThen { a: self.chain, b: OkOrElse { s }, marker: PhantomData }, marker: PhantomData }
    }

    /// `None` becomes a default.
    pub fn unwrap_or(self, default: T) -> (r: DagArm<V, In, T, ArmThen<C, OptUnwrapOr<T>, Option<T>>>)
        where T: Clone,
        ensures r.chain == (ArmThen { a: self.chain, b: OptUnwrapOr { default }, marker: PhantomData::<Option<T>> }),
    {
        DagArm { chain: ArmThen { a: self.chain, b: OptUnwrapOr { default }, marker: PhantomData }, marker: PhantomData }
    }

    /// `None` becomes a produced value.
    pub fn unwrap_or_else<S: Step<V, (), T>>(self, s: S) -> (r: DagArm<V, In, T, ArmThen<C, OptUnwrapOrElse<S>, Option<T>>>)
        ensures r.chain == (ArmThen { a: self.chain, b: OptUnwrapOrElse { s }, marker: PhantomData::<Option<T>> }),
    {
        DagArm { chain: ArmThen { a: self.chain, b: OptUnwrapOrElse { s }, marker: PhantomData }, marker: PhantomData }
    }
}
impl<V, In, T, Er, C: RefStep<V, In, Result<T, Er>>> DagArm<V, In, Result<T, Er>, C> {
    /// Apply a node to the borrowed `Ok` value.
    pub fn map<U, S: RefStep<V, T, U>>(self, s: S) -> (r: DagArm<V, In, Result<U, Er>, ArmThen<C, ResMap<Borrowed<S>>, Result<T, Er>>>)
        ensures r.chain == (ArmThen { a: self.chain, b: ResMap { s: Borrowed { s } }, marker: PhantomData::<Result<T, Er>> }),
    {
        DagArm { chain: ArmThen { a: self.chain, b: ResMap { s: Borrowed { s } }, marker: PhantomData }, marker: PhantomData }
    }

    /// Apply a `Result`-returning node to the borrowed `Ok` value.
    pub fn and_then<U, S: RefStep<V, T, Result<U, Er>>>(self, s: S) -> (r: DagArm<V, In, Result<U, Er>, ArmThen<C, ResAndThen<Borrowed<S>>, Result<T, Er>>>)
        ensures r.chain == (ArmThen { a: self.chain, b: ResAndThen { s: Borrowed { s } }, marker: PhantomData::<Result<T, Er>> }),
    {
        DagArm { chain: ArmThen { a: self.chain, b: ResAndThen { s: Borrowed { s } }, marker: PhantomData }, marker: PhantomData }
    }

    /// Handle the borrowed error and continue with `Option`.
    pub fn catch<S: RefStep<V, Er, ()>>(self, s: S) -> (r: DagArm<V, In, Option<T>, ArmThen<C, Catch<Borrowed<S>>, Result<T, Er>>>)
        ensures r.chain == (ArmThen { a: self.chain, b: Catch { s: Borrowed { s } }, marker: PhantomData::<Result<T, Er>> }),
    {
        DagArm { chain: ArmThen { a: self.chain, b: Catch { s: Borrowed { s } }, marker: PhantomData }, marker: PhantomData }
    }

    /// Transform the error.
    pub fn map_err<E2, S: Step<V, Er, E2>>(self, s: S) -> (r: DagArm<V, In, Result<T, E2>, ArmThen<C, MapErr<S>, Result<T, Er>>>)
        ensures r.chain == (ArmThen { a: self.chain, b: MapErr { s }, marker: PhantomData::<Result<T, Er>> }),
    {
        DagArm { chain: ArmThen { a: self.chain, b: MapErr { s }, marker: PhantomData }, marker: PhantomData }
    }

    /// Recover from the error.
    pub fn or_else<E2, S: Step<V, Er, Result<T, E2>>>(self, s: S) -> (r: DagArm<V, In, Result<T, E2>, ArmThen<C, OrElse<S>, Result<T, Er>>>)
        ensures r.chain == (ArmThen { a: self.chain, b: OrElse { s }, marker: PhantomData::<Result<T, Er>> }),
    {
        DagArm { chain: ArmThen { a: self.chain, b: OrElse { s }, marker: PhantomData }, marker: PhantomData }
    }

    /// Observe the `Ok` value by reference.
    pub fn inspect<S: RefStep<V, T, ()>>(self, s: S) -> (r: DagArm<V, In, Result<T, Er>, ArmThen<C, ResInspect<S>, Result<T, Er>>>)
        ensures r.chain == (ArmThen { a: self.chain, b: ResInspect { s }, marker: PhantomData::<Result<T, Er>> }),
    {
        DagArm { chain: ArmThen { a: self.chain, b: ResInspect { s }, marker: PhantomData }, marker: PhantomData }
    }

    /// Observe the error by reference.
    pub fn inspect_err<S: RefStep<V, Er, ()>>(self, s: S) -> (r: DagArm<V, In, Result<T, Er>, ArmThen<C, InspectErr<S>, Result<T, Er>>>)
        ensures r.chain == (ArmThen { a: self.chain, b: InspectErr { s }, marker: PhantomData::<Result<T, Er>> }),
    {
        DagArm { chain: ArmThen { a: self.chain, b: InspectErr { s }, marker: PhantomData }, marker: PhantomData }
    }

    /// Discard the error.
    pub fn ok(self) -> (r: DagArm<V, In, Option<T>, ArmThen<C, ResOk, Result<T, Er>>>)
        ensures r.chain == (ArmThen { a: self.chain, b: ResOk, marker: PhantomData::<Result<T, Er>> }),
    {
        DagArm { chain: ArmThen { a: self.chain, b: ResOk, marker: PhantomData }, marker: PhantomData }
    }

    /// `Err` becomes a default.
    pub fn unwrap_or(self, default: T) -> (r: DagArm<V, In, T, ArmThen<C, ResUnwrapOr<T>, Result<T, Er>>>)
        where T: Clone,
        ensures r.chain == (ArmThen { a: self.chain, b: ResUnwrapOr { default }, marker: PhantomData::<Result<T, Er>> }),
    {
        DagArm { chain: ArmThen { a: self.chain, b: ResUnwrapOr { default }, marker: PhantomData }, marker: PhantomData }
    }

    /// `Err` becomes a value computed from the error.
    pub fn unwrap_or_else<S: Step<V, Er, T>>(self, s: S) -> (r: DagArm<V, In, T, ArmThen<C, ResUnwrapOrElse<S>, Result<T, Er>>>)
        ensures r.chain == (ArmThen { a: self.chain, b: ResUnwrapOrElse { s }, marker: PhantomData::<Result<T, Er>> }),
    {
        DagArm { chain: ArmThen { a: self.chain, b: ResUnwrapOrElse { s }, marker: PhantomData }, marker: PhantomData }
    }
}
impl<V, In, C: RefStep<V, In, bool>> DagArm<V, In, bool, C> {
    /// Logical negation.
    pub fn not(self) -> (r: DagArm<V, In, bool, ArmThen<C, Not, bool>>)
        ensures r.chain == (ArmThen { a: self.chain, b: Not, marker: PhantomData::<bool> }),
    {
        DagArm { chain: ArmThen { a: self.chain, b: Not, marker: PhantomData }, marker: PhantomData }
    }

    /// Short-circuit AND with a producer.
    pub fn and<S: Step<V, (), bool>>(self, s: S) -> (r: DagArm<V, In, bool, ArmThen<C, And<S>, bool>>)
        ensures r.chain == (ArmThen { a: self.chain, b: And { s }, marker: PhantomData::<bool> }),
    {
        DagArm { chain: ArmThen { a: self.chain, b: And { s }, marker: PhantomData }, marker: PhantomData }
    }

    /// Short-circuit OR with a producer.
    pub fn or<S: Step<V, (), bool>>(self, s: S) -> (r: DagArm<V, In, bool, ArmThen<C, Or<S>, bool>>)
        ensures r.chain == (ArmThen { a: self.chain, b: Or { s }, marker: PhantomData::<bool> }),
    {
        DagArm { chain: ArmThen { a: self.chain, b: Or { s }, marker: PhantomData }, marker: PhantomData }
    }

    /// XOR with a producer.
    pub fn xor<S: Step<V, (), bool>>(self, s: S) -> (r: DagArm<V, In, bool, ArmThen<C, Xor<S>, bool>>)
        ensures r.chain == (ArmThen { a: self.chain, b: Xor { s }, marker: PhantomData::<bool> }),
    {
        DagArm { chain: ArmThen { a: self.chain, b: Xor { s }, marker: PhantomData }, marker: PhantomData }
    }
}
impl<V, E, T, C> DagChainFork<V, E, T, C, ()> {
    /// Add an arm; it borrows the fork value.
    pub fn arm<O, A>(self, arm: DagArm<V, T, O, A>) -> (r: DagChainFork<V, E, T, C, (DagArm<V, T, O, A>,)>)
        ensures r.chain == self.chain, r.arms.0 == arm,
    {
        DagChainFork { chain: self.chain, arms: (arm,), marker: PhantomData }
    }
}

impl<V, E, T, C, O0, A0> DagChainFork<V, E, T, C, (DagArm<V, T, O0, A0>,)> {
    /// Add an arm; it borrows the fork value.
    pub fn arm<O, A>(self, arm: DagArm<V, T, O, A>) -> (r: DagChainFork<V, E, T, C, (DagArm<V, T, O0, A0>, DagArm<V, T, O, A>)>)
        ensures r.chain == self.chain, r.arms.0 == self.arms.0, r.arms.1 == arm,
    {
        let (a0,) = self.arms;
        DagChainFork { chain: self.chain, arms: (a0, arm), marker: PhantomData }
    }
}

impl<V, E, T, C, O0, A0, O1, A1> DagChainFork<V, E, T, C, (DagArm<V, T, O0, A0>, DagArm<V, T, O1, A1>)> {
    /// Add an arm; it borrows the fork value.
    pub fn arm<O, A>(self, arm: DagArm<V, T, O, A>) -> (r: DagChainFork<V, E, T, C, (DagArm<V, T, O0, A0>, DagArm<V, T, O1, A1>, DagArm<V, T, O, A>)>)
        ensures r.chain == self.chain, r.arms.0 == self.arms.0, r.arms.1 == self.arms.1, r.arms.2 == arm,
    {
        let (a0, a1) = self.arms;
        DagChainFork { chain: self.chain, arms: (a0, a1, arm), marker: PhantomData }
    }
}

impl<V, E, T, C, O0, A0, O1, A1, O2, A2> DagChainFork<V, E, T, C, (DagArm<V, T, O0, A0>, DagArm<V, T, O1, A1>, DagArm<V, T, O2, A2>)> {
    /// Add an arm; it borrows the fork value.
    pub fn arm<O, A>(self, arm: DagArm<V, T, O, A>) -> (r: DagChainFork<V, E, T, C, (DagArm<V, T, O0, A0>, DagArm<V, T, O1, A1>, DagArm<V, T, O2, A2>, DagArm<V, T, O, A>)>)
        ensures r.chain == self.chain, r.arms.0 == self.arms.0, r.arms.1 == self.arms.1, r.arms.2 == self.arms.2, r.arms.3 == arm,
    {
        let (a0, a1, a2) = self.arms;
        DagChainFork { chain: self.chain, arms: (a0, a1, a2, arm), marker: PhantomData }
    }
}

impl<V, E, T, C: Step<V, E, T>, O0, O1, A0: RefStep<V, T, O0>, A1: RefStep<V, T, O1>> DagChainFork<V, E, T, C, (DagArm<V, T, O0, A0>, DagArm<V, T, O1, A1>)> {
    /// Merge the 2 arm outputs with a by-reference node.
    pub fn merge<M, S: RefStep<V, (O0, O1), M>>(self, s: S)
        -> (r: DagChain<V, E, M, Then<C, Then<Borrowed<Fork2<A0, A1>>, Borrowed<S>, (O0, O1)>, T>>)
        ensures r.chain == (Then { a: self.chain, b: Then { a: Borrowed { s: Fork2 { a0: self.arms.0.chain, a1: self.arms.1.chain } }, b: Borrowed { s }, marker: PhantomData::<(O0, O1)> }, marker: PhantomData::<T> }),
    {
        let (a0, a1) = self.arms;
        let fork = Fork2 { a0: a0.chain, a1: a1.chain };
        DagChain { chain: Then { a: self.chain, b: Then { a: Borrowed { s: fork }, b: Borrowed { s }, marker: PhantomData }, marker: PhantomData }, marker: PhantomData }
    }
}

impl<V, E, T, C: Step<V, E, T>, A0: RefStep<V, T, ()>, A1: RefStep<V, T, ()>> DagChainFork<V, E, T, C, (DagArm<V, T, (), A0>, DagArm<V, T, (), A1>)> {
    /// Run the 2 unit arms in order, then finish.
    pub fn join(self) -> (r: DagChain<V, E, (), Then<C, Then<Borrowed<Fork2<A0, A1>>, Discard, ((), ())>, T>>)
        ensures r.chain == (Then { a: self.chain, b: Then { a: Borrowed { s: Fork2 { a0: self.arms.0.chain, a1: self.arms.1.chain } }, b: Discard, marker: PhantomData::<((), ())> }, marker: PhantomData::<T> }),
    {
        let (a0, a1) = self.arms;
        let fork = Fork2 { a0: a0.chain, a1: a1.chain };
        DagChain { chain: Then { a: self.chain, b: Then { a: Borrowed { s: fork }, b: Discard, marker: PhantomData }, marker: PhantomData }, marker: PhantomData }
    }
}

impl<V, E, T, C: Step<V, E, T>, O0, O1, O2, A0: RefStep<V, T, O0>, A1: RefStep<V, T, O1>, A2: RefStep<V, T, O2>> DagChainFork<V, E, T, C, (DagArm<V, T, O0, A0>, DagArm<V, T, O1, A1>, DagArm<V, T, O2, A2>)> {
    /// Merge the 3 arm outputs with a by-reference node.
    pub fn merge<M, S: RefStep<V, (O0, O1, O2), M>>(self, s: S)
        -> (r: DagChain<V, E, M, Then<C, Then<Borrowed<Fork3<A0, A1, A2>>, Borrowed<S>, (O0, O1, O2)>, T>>)
        ensures r.chain == (Then { a: self.chain, b: Then { a: Borrowed { s: Fork3 { a0: self.arms.0.chain, a1: self.arms.1.chain, a2: self.arms.2.chain } }, b: Borrowed { s }, marker: PhantomData::<(O0, O1, O2)> }, marker: PhantomData::<T> }),
    {
        let (a0, a1, a2) = self.arms;
        let fork = Fork3 { a0: a0.chain, a1: a1.chain, a2: a2.chain };
        DagChain { chain: Then { a: self.chain, b: Then { a: Borrowed { s: fork }, b: Borrowed { s }, marker: PhantomData }, marker: PhantomData }, marker: PhantomData }
    }
}

impl<V, E, T, C: Step<V, E, T>, A0: RefStep<V, T, ()>, A1: RefStep<V, T, ()>, A2: RefStep<V, T, ()>> DagChainFork<V, E, T, C, (DagArm<V, T, (), A0>, DagArm<V, T, (), A1>, DagArm<V, T, (), A2>)> {
    /// Run the 3 unit arms in order, then finish.
    pub fn join(self) -> (r: DagChain<V, E, (), Then<C, Then<Borrowed<Fork3<A0, A1, A2>>, Discard, ((), (), ())>, T>>)
        ensures r.chain == (Then { a: self.chain, b: Then { a: Borrowed { s: Fork3 { a0: self.arms.0.chain, a1: self.arms.1.chain, a2: self.arms.2.chain } }, b: Discard, marker: PhantomData::<((), (), ())> }, marker: PhantomData::<T> }),
    {
        let (a0, a1, a2) = self.arms;
        let fork = Fork3 { a0: a0.chain, a1: a1.chain, a2: a2.chain };
        DagChain { chain: Then { a: self.chain, b: Then { a: Borrowed { s: fork }, b: Discard, marker: PhantomData }, marker: PhantomData }, marker: PhantomData }
    }
}

impl<V, E, T, C: Step<V, E, T>, O0, O1, O2, O3, A0: RefStep<V, T, O0>, A1: RefStep<V, T, O1>, A2: RefStep<V, T, O2>, A3: RefStep<V, T, O3>> DagChainFork<V, E, T, C, (DagArm<V, T, O0, A0>, DagArm<V, T, O1, A1>, DagArm<V, T, O2, A2>, DagArm<V, T, O3, A3>)> {
    /// Merge the 4 arm outputs with a by-reference node.
    pub fn merge<M, S: RefStep<V, (O0, O1, O2, O3), M>>(self, s: S)
        -> (r: DagChain<V, E, M, Then<C, Then<Borrowed<Fork4<A0, A1, A2, A3>>, Borrowed<S>, (O0, O1, O2, O3)>, T>>)
        ensures r.chain == (Then { a: self.chain, b: Then { a: Borrowed { s: Fork4 { a0: self.arms.0.chain, a1: self.arms.1.chain, a2: self.arms.2.chain, a3: self.arms.3.chain } }, b: Borrowed { s }, marker: PhantomData::<(O0, O1, O2, O3)> }, marker: PhantomData::<T> }),
    {
        let (a0, a1, a2, a3) = self.arms;
        let fork = Fork4 { a0: a0.chain, a1: a1.chain, a2: a2.chain, a3: a3.chain };
        DagChain { chain: Then { a: self.chain, b: Then { a: Borrowed { s: fork }, b: Borrowed { s }, marker: PhantomData }, marker: PhantomData }, marker: PhantomData }
    }
}

impl<V, E, T, C: Step<V, E, T>, A0: RefStep<V, T, ()>, A1: RefStep<V, T, ()>, A2: RefStep<V, T, ()>, A3: RefStep<V, T, ()>> DagChainFork<V, E, T, C, (DagArm<V, T, (), A0>, DagArm<V, T, (), A1>, DagArm<V, T, (), A2>, DagArm<V, T, (), A3>)> {
    /// Run the 4 unit arms in order, then finish.
    pub fn join(self) -> (r: DagChain<V, E, (), Then<C, Then<Borrowed<Fork4<A0, A1, A2, A3>>, Discard, ((), (), (), ())>, T>>)
        ensures r.chain == (Then { a: self.chain, b: Then { a: Borrowed { s: Fork4 { a0: self.arms.0.chain, a1: self.arms.1.chain, a2: self.arms.2.chain, a3: self.arms.3.chain } }, b: Discard, marker: PhantomData::<((), (), (), ())> }, marker: PhantomData::<T> }),
    {
        let (a0, a1, a2, a3) = self.arms;
        let fork = Fork4 { a0: a0.chain, a1: a1.chain, a2: a2.chain, a3: a3.chain };
        DagChain { chain: Then { a: self.chain, b: Then { a: Borrowed { s: fork }, b: Discard, marker: PhantomData }, marker: PhantomData }, marker: PhantomData }
    }
}
impl<V, In, T, C> DagArmFork<V, In, T, C, ()> {
    /// Add an arm; it borrows the fork value.
    pub fn arm<O, A>(self, arm: DagArm<V, T, O, A>) -> (r: DagArmFork<V, In, T, C, (DagArm<V, T, O, A>,)>)
        ensures r.chain == self.chain, r.arms.0 == arm,
    {
        DagArmFork { chain: self.chain, arms: (arm,), marker: PhantomData }
    }
}

impl<V, In, T, C, O0, A0> DagArmFork<V, In, T, C, (DagArm<V, T, O0, A0>,)> {
    /// Add an arm; it borrows the fork value.
    pub fn arm<O, A>(self, arm: DagArm<V, T, O, A>) -> (r: DagArmFork<V, In, T, C, (DagArm<V, T, O0, A0>, DagArm<V, T, O, A>)>)
        ensures r.chain == self.chain, r.arms.0 == self.arms.0, r.arms.1 == arm,
    {
        let (a0,) = self.arms;
        DagArmFork { chain: self.chain, arms: (a0, arm), marker: PhantomData }
    }
}

impl<V, In, T, C, O0, A0, O1, A1> DagArmFork<V, In, T, C, (DagArm<V, T, O0, A0>, DagArm<V, T, O1, A1>)> {
    /// Add an arm; it borrows the fork value.
    pub fn arm<O, A>(self, arm: DagArm<V, T, O, A>) -> (r: DagArmFork<V, In, T, C, (DagArm<V, T, O0, A0>, DagArm<V, T, O1, A1>, DagArm<V, T, O, A>)>)
        ensures r.chain == self.chain, r.arms.0 == self.arms.0, r.arms.1 == self.arms.1, r.arms.2 == arm,
    {
        let (a0, a1) = self.arms;
        DagArmFork { chain: self.chain, arms: (a0, a1, arm), marker: PhantomData }
    }
}

impl<V, In, T, C, O0, A0, O1, A1, O2, A2> DagArmFork<V, In, T, C, (DagArm<V, T, O0, A0>, DagArm<V, T, O1, A1>, DagArm<V, T, O2, A2>)> {
    /// Add an arm; it borrows the fork value.
    pub fn arm<O, A>(self, arm: DagArm<V, T, O, A>) -> (r: DagArmFork<V, In, T, C, (DagArm<V, T, O0, A0>, DagArm<V, T, O1, A1>, DagArm<V, T, O2, A2>, DagArm<V, T, O, A>)>)
        ensures r.chain == self.chain, r.arms.0 == self.arms.0, r.arms.1 == self.arms.1, r.arms.2 == self.arms.2, r.arms.3 == arm,
    {
        let (a0, a1, a2) = self.arms;
        DagArmFork { chain: self.chain, arms: (a0, a1, a2, arm), marker: PhantomData }
    }
}

impl<V, In, T, C: RefStep<V, In, T>, O0, O1, A0: RefStep<V, T, O0>, A1: RefStep<V, T, O1>> DagArmFork<V, In, T, C, (DagArm<V, T, O0, A0>, DagArm<V, T, O1, A1>)> {
    /// Merge the 2 arm outputs with a by-reference node.
    pub fn merge<M, S: RefStep<V, (O0, O1), M>>(self, s: S)
        -> (r: DagArm<V, In, M, ArmThen<C, Then<Borrowed<Fork2<A0, A1>>, Borrowed<S>, (O0, O1)>, T>>)
        ensures r.chain == (ArmThen { a: self.chain, b: Then { a: Borrowed { s: Fork2 { a0: self.arms.0.chain, a1: self.arms.1.chain } }, b: Borrowed { s }, marker: PhantomData::<(O0, O1)> }, marker: PhantomData::<T> }),
    {
        let (a0, a1) = self.arms;
        let fork = Fork2 { a0: a0.chain, a1: a1.chain };
        DagArm { chain: ArmThen { a: self.chain, b: Then { a: Borrowed { s: fork }, b: Borrowed { s }, marker: PhantomData }, marker: PhantomData }, marker: PhantomData }
    }
}

impl<V, In, T, C: RefStep<V, In, T>, A0: RefStep<V, T, ()>, A1: RefStep<V, T, ()>> DagArmFork<V, In, T, C, (DagArm<V, T, (), A0>, DagArm<V, T, (), A1>)> {
    /// Run the 2 unit arms in order, then finish.
    pub fn join(self) -> (r: DagArm<V, In, (), ArmThen<C, Then<Borrowed<Fork2<A0, A1>>, Discard, ((), ())>, T>>)
        ensures r.chain == (ArmThen { a: self.chain, b: Then { a: Borrowed { s: Fork2 { a0: self.arms.0.chain, a1: self.arms.1.chain } }, b: Discard, marker: PhantomData::<((), ())> }, marker: PhantomData::<T> }),
    {
        let (a0, a1) = self.arms;
        let fork = Fork2 { a0: a0.chain, a1: a1.chain };
        DagArm { chain: ArmThen { a: self.chain, b: Then { a: Borrowed { s: fork }, b: Discard, marker: PhantomData }, marker: PhantomData }, marker: PhantomData }
    }
}

impl<V, In, T, C: RefStep<V, In, T>, O0, O1, O2, A0: RefStep<V, T, O0>, A1: RefStep<V, T, O1>, A2: RefStep<V, T, O2>> DagArmFork<V, In, T, C, (DagArm<V, T, O0, A0>, DagArm<V, T, O1, A1>, DagArm<V, T, O2, A2>)> {
    /// Merge the 3 arm outputs with a by-reference node.
    pub fn merge<M, S: RefStep<V, (O0, O1, O2), M>>(self, s: S)
        -> (r: DagArm<V, In, M, ArmThen<C, Then<Borrowed<Fork3<A0, A1, A2>>, Borrowed<S>, (O0, O1, O2)>, T>>)
        ensures r.chain == (ArmThen { a: self.chain, b: Then { a: Borrowed { s: Fork3 { a0: self.arms.0.chain, a1: self.arms.1.chain, a2: self.arms.2.chain } }, b: Borrowed { s }, marker: PhantomData::<(O0, O1, O2)> }, marker: PhantomData::<T> }),
    {
        let (a0, a1, a2) = self.arms;
        let fork = Fork3 { a0: a0.chain, a1: a1.chain, a2: a2.chain };
        DagArm { chain: ArmThen { a: self.chain, b: Then { a: Borrowed { s: fork }, b: Borrowed { s }, marker: PhantomData }, marker: PhantomData }, marker: PhantomData }
    }
}

impl<V, In, T, C: RefStep<V, In, T>, A0: RefStep<V, T, ()>, A1: RefStep<V, T, ()>, A2: RefStep<V, T, ()>> DagArmFork<V, In, T, C, (DagArm<V, T, (), A0>, DagArm<V, T, (), A1>, DagArm<V, T, (), A2>)> {
    /// Run the 3 unit arms in order, then finish.
    pub fn join(self) -> (r: DagArm<V, In, (), ArmThen<C, Then<Borrowed<Fork3<A0, A1, A2>>, Discard, ((), (), ())>, T>>)
        ensures r.chain == (ArmThen { a: self.chain, b: Then { a: Borrowed { s: Fork3 { a0: self.arms.0.chain, a1: self.arms.1.chain, a2: self.arms.2.chain } }, b: Discard, marker: PhantomData::<((), (), ())> }, marker: PhantomData::<T> }),
    {
        let (a0, a1, a2) = self.arms;
        let fork = Fork3 { a0: a0.chain, a1: a1.chain, a2: a2.chain };
        DagArm { chain: ArmThen { a: self.chain, b: Then { a: Borrowed { s: fork }, b: Discard, marker: PhantomData }, marker: PhantomData }, marker: PhantomData }
    }
}

impl<V, In, T, C: RefStep<V, In, T>, O0, O1, O2, O3, A0: RefStep<V, T, O0>, A1: RefStep<V, T, O1>, A2: RefStep<V, T, O2>, A3: RefStep<V, T, O3>> DagArmFork<V, In, T, C, (DagArm<V, T, O0, A0>, DagArm<V, T, O1, A1>, DagArm<V, T, O2, A2>, DagArm<V, T, O3, A3>)> {
    /// Merge the 4 arm outputs with a by-reference node.
    pub fn merge<M, S: RefStep<V, (O0, O1, O2, O3), M>>(self, s: S)
        -> (r: DagArm<V, In, M, ArmThen<C, Then<Borrowed<Fork4<A0, A1, A2, A3>>, Borrowed<S>, (O0, O1, O2, O3)>, T>>)
        ensures r.chain == (ArmThen { a: self.chain, b: Then { a: Borrowed { s: Fork4 { a0: self.arms.0.chain, a1: self.arms.1.chain, a2: self.arms.2.chain, a3: self.arms.3.chain } }, b: Borrowed { s }, marker: PhantomData::<(O0, O1, O2, O3)> }, marker: PhantomData::<T> }),
    {
        let (a0, a1, a2, a3) = self.arms;
        let fork = Fork4 { a0: a0.chain, a1: a1.chain, a2: a2.chain, a3: a3.chain };
        DagArm { chain: ArmThen { a: self.chain, b: Then { a: Borrowed { s: fork }, b: Borrowed { s }, marker: PhantomData }, marker: PhantomData }, marker: PhantomData }
    }
}

impl<V, In, T, C: RefStep<V, In, T>, A0: RefStep<V, T, ()>, A1: RefStep<V, T, ()>, A2: RefStep<V, T, ()>, A3: RefStep<V, T, ()>> DagArmFork<V, In, T, C, (DagArm<V, T, (), A0>, DagArm<V, T, (), A1>, DagArm<V, T, (), A2>, DagArm<V, T, (), A3>)> {
    /// Run the 4 unit arms in order, then finish.
    pub fn join(self) -> (r: DagArm<V, In, (), ArmThen<C, Then<Borrowed<Fork4<A0, A1, A2, A3>>, Discard, ((), (), (), ())>, T>>)
        ensures r.chain == (ArmThen { a: self.chain, b: Then { a: Borrowed { s: Fork4 { a0: self.arms.0.chain, a1: self.arms.1.chain, a2: self.arms.2.chain, a3: self.arms.3.chain } }, b: Discard, marker: PhantomData::<((), (), (), ())> }, marker: PhantomData::<T> }),
    {
        let (a0, a1, a2, a3) = self.arms;
        let fork = Fork4 { a0: a0.chain, a1: a1.chain, a2: a2.chain, a3: a3.chain };
        DagArm { chain: ArmThen { a: self.chain, b: Then { a: Borrowed { s: fork }, b: Discard, marker: PhantomData }, marker: PhantomData }, marker: PhantomData }
    }
}
} // verus!
