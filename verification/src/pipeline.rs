//! Typed per-event pipelines.
//!
//! A pipeline is a chain of steps built with [`PipelineStart`] and the
//! [`PipelineBuilder`] combinators. `Option` and `Result` outputs give
//! flow control: `None`/`Err` short-circuit the steps that follow until a
//! combinator resolves them. Each combinator is itself a [`Step`] whose
//! relation is stated in terms of the steps it wraps.
use vstd::prelude::*;
use core::marker::PhantomData;
use crate::world::{World, WorldView};
use crate::step::{Step, RefStep, PureFn, Named};
use crate::handler::Handler;
use vstd::std_specs::cmp::PartialEqSpec;
use vstd::pervasive::strictly_cloned;

verus! {

// =============================================================================
// Composition
// =============================================================================

/// The identity step: the start of every pipeline.
pub struct Ident;

impl<V, T> Step<V, T, T> for Ident {
    open spec fn pre(&self, w: World<V>, x: T) -> bool {
        true
    }

    open spec fn rel(&self, next: &Self, w0: World<V>, x: T, w1: World<V>, out: T) -> bool {
        w1 == w0 && out == x
    }

    fn call(&mut self, world: &mut World<V>, x: T) -> (out: T) {
        x
    }
}

/// Run `a`, then `b` on its output.
pub struct Then<A, B, M> {
    /// First step.
    pub a: A,
    /// Second step.
    pub b: B,
    /// The intermediate type.
    pub marker: PhantomData<M>,
}

impl<V, In, M, Out, A: Step<V, In, M>, B: Step<V, M, Out>> Step<V, In, Out> for Then<A, B, M> {
    open spec fn pre(&self, w: World<V>, x: In) -> bool {
        &&& self.a.pre(w, x)
        &&& forall|a1: A, w1: World<V>, m: M| #[trigger] self.a.rel(&a1, w, x, w1, m) ==> self.b.pre(w1, m)
    }

    open spec fn rel(&self, next: &Self, w0: World<V>, x: In, w2: World<V>, out: Out) -> bool {
        exists|w1: World<V>, m: M|
            #[trigger] self.a.rel(&next.a, w0, x, w1, m) && self.b.rel(&next.b, w1, m, w2, out)
    }

    fn call(&mut self, world: &mut World<V>, x: In) -> (out: Out) {
        let m = self.a.call(world, x);
        let ghost w1 = *world;
        let out = self.b.call(world, m);
        assert(old(self).a.rel(&self.a, *old(world), x, w1, m));
        out
    }
}

// =============================================================================
// Unconditional lifts
// =============================================================================

/// Wrap the value in `Some` when a by-reference predicate holds.
pub struct Guard<S> {
    /// The predicate.
    pub s: S,
}

impl<V, T, S: RefStep<V, T, bool>> Step<V, T, Option<T>> for Guard<S> {
    open spec fn pre(&self, w: World<V>, x: T) -> bool {
        self.s.pre(w, x)
    }

    open spec fn rel(&self, next: &Self, w0: World<V>, x: T, w1: World<V>, out: Option<T>) -> bool {
        exists|b: bool| self.s.rel(&next.s, w0, x, w1, b) && out == (if b { Some(x) } else { None })
    }

    fn call(&mut self, world: &mut World<V>, x: T) -> (out: Option<T>) {
        let b = self.s.call(world, &x);
        assert(old(self).s.rel(&self.s, *old(world), x, *world, b));
        if b { Some(x) } else { None }
    }
}

/// Observe the value by reference; it passes through unchanged.
pub struct Tap<S> {
    /// The observer.
    pub s: S,
}

impl<V, T, S: RefStep<V, T, ()>> Step<V, T, T> for Tap<S> {
    open spec fn pre(&self, w: World<V>, x: T) -> bool {
        self.s.pre(w, x)
    }

    open spec fn rel(&self, next: &Self, w0: World<V>, x: T, w1: World<V>, out: T) -> bool {
        self.s.rel(&next.s, w0, x, w1, ()) && out == x
    }

    fn call(&mut self, world: &mut World<V>, x: T) -> (out: T) {
        self.s.call(world, &x);
        x
    }
}

/// Run a side chain on a borrow of the value; the value passes through.
pub struct Tee<S> {
    /// The side chain.
    pub s: S,
}

impl<V, T, S: RefStep<V, T, ()>> Step<V, T, T> for Tee<S> {
    open spec fn pre(&self, w: World<V>, x: T) -> bool {
        self.s.pre(w, x)
    }

    open spec fn rel(&self, next: &Self, w0: World<V>, x: T, w1: World<V>, out: T) -> bool {
        self.s.rel(&next.s, w0, x, w1, ()) && out == x
    }

    fn call(&mut self, world: &mut World<V>, x: T) -> (out: T) {
        self.s.call(world, &x);
        x
    }
}

/// Binary conditional: run `on_true` if the predicate holds, `on_false`
/// otherwise. The branch not taken is not called.
pub struct Route<P, C0, C1> {
    /// The predicate, by reference.
    pub pred: P,
    /// Branch taken when the predicate is true.
    pub on_true: C0,
    /// Branch taken when the predicate is false.
    pub on_false: C1,
}

impl<V, T, U, P: RefStep<V, T, bool>, C0: Step<V, T, U>, C1: Step<V, T, U>> Step<V, T, U> for Route<P, C0, C1> {
    open spec fn pre(&self, w: World<V>, x: T) -> bool {
        &&& self.pred.pre(w, x)
        &&& forall|p1: P, w1: World<V>, b: bool| #[trigger] self.pred.rel(&p1, w, x, w1, b) ==>
                if b { self.on_true.pre(w1, x) } else { self.on_false.pre(w1, x) }
    }

    open spec fn rel(&self, next: &Self, w0: World<V>, x: T, w2: World<V>, out: U) -> bool {
        exists|w1: World<V>, b: bool| #[trigger] self.pred.rel(&next.pred, w0, x, w1, b) &&
            if b {
                self.on_true.rel(&next.on_true, w1, x, w2, out) && next.on_false == self.on_false
            } else {
                self.on_false.rel(&next.on_false, w1, x, w2, out) && next.on_true == self.on_true
            }
    }

    fn call(&mut self, world: &mut World<V>, x: T) -> (out: U) {
        let b = self.pred.call(world, &x);
        let ghost w1 = *world;
        assert(old(self).pred.rel(&self.pred, *old(world), x, w1, b));
        if b {
            let out = self.on_true.call(world, x);
            assert(old(self).pred.rel(&self.pred, *old(world), x, w1, b) &&
                old(self).on_true.rel(&self.on_true, w1, x, *world, out) && self.on_false == old(self).on_false);
            out
        } else {
            let out = self.on_false.call(world, x);
            assert(old(self).pred.rel(&self.pred, *old(world), x, w1, b) &&
                old(self).on_false.rel(&self.on_false, w1, x, *world, out) && self.on_true == old(self).on_true);
            out
        }
    }
}

/// Suppress consecutive equal values: `Some(v)` when `v` differs from the
/// previous value seen (always on the first call), `None` otherwise.
pub struct Dedup<T> {
    /// The last value passed through.
    pub prev: Option<T>,
}

/// Whether `x` repeats the previous value of a dedup.
pub open spec fn dedup_repeats<T: PartialEq>(prev: Option<T>, x: T) -> bool {
    match prev {
        Some(p) => p.eq_spec(&x),
        None => false,
    }
}

impl<V, T: PartialEq + Clone> Step<V, T, Option<T>> for Dedup<T> {
    open spec fn pre(&self, w: World<V>, x: T) -> bool {
        true
    }

    /// The first value always passes; a value that passes is kept (as a
    /// clone) for the next comparison; a dropped one leaves the kept value.
    /// Where `==` on `T` has a specification, exactly the repeats are
    /// dropped.
    open spec fn rel(&self, next: &Self, w0: World<V>, x: T, w1: World<V>, out: Option<T>) -> bool {
        &&& w1 == w0
        &&& self.prev is None ==> out == Some(x)
        &&& out is None ==> next.prev == self.prev
        &&& out is Some ==> out == Some(x) && next.prev is Some && cloned(x, next.prev->0)
        &&& T::obeys_eq_spec() ==> (out is None <==> dedup_repeats(self.prev, x))
    }

    fn call(&mut self, world: &mut World<V>, x: T) -> (out: Option<T>) {
        let repeat = match &self.prev {
            Some(p) => *p == x,
            None => false,
        };
        if repeat {
            None
        } else {
            self.prev = Some(x.clone());
            Some(x)
        }
    }
}

/// Dedup over two values in a row: the second is dropped exactly when it
/// equals the first, whatever came before.
pub proof fn lemma_dedup_twice<V>(
    d0: Dedup<u64>, d1: Dedup<u64>, d2: Dedup<u64>,
    w0: World<V>, w1: World<V>, w2: World<V>,
    x: u64, y: u64, o1: Option<u64>, o2: Option<u64>,
)
    requires
        <Dedup<u64> as Step<V, u64, Option<u64>>>::rel(&d0, &d1, w0, x, w1, o1),
        <Dedup<u64> as Step<V, u64, Option<u64>>>::rel(&d1, &d2, w1, y, w2, o2),
    ensures
        o1 is Some || d0.prev == Some(x),
        o2 is None <==> y == x,
{
}

// =============================================================================
// Option combinators
// =============================================================================

/// Apply a step to the `Some` value; `None` passes through.
pub struct OptMap<S> {
    /// The step.
    pub s: S,
}

impl<V, T, U, S: Step<V, T, U>> Step<V, Option<T>, Option<U>> for OptMap<S> {
    open spec fn pre(&self, w: World<V>, x: Option<T>) -> bool {
        match x { Some(t) => self.s.pre(w, t), None => true }
    }

    open spec fn rel(&self, next: &Self, w0: World<V>, x: Option<T>, w1: World<V>, out: Option<U>) -> bool {
        match x {
            Some(t) => exists|u: U| self.s.rel(&next.s, w0, t, w1, u) && out == Some(u),
            None => out is None && w1 == w0 && next.s == self.s,
        }
    }

    fn call(&mut self, world: &mut World<V>, x: Option<T>) -> (out: Option<U>) {
        match x {
            Some(t) => {
                let u = self.s.call(world, t);
                assert(old(self).s.rel(&self.s, *old(world), t, *world, u));
                Some(u)
            },
            None => None,
        }
    }
}

/// Apply an `Option`-returning step to the `Some` value; `None` passes
/// through.
pub struct OptAndThen<S> {
    /// The step.
    pub s: S,
}

impl<V, T, U, S: Step<V, T, Option<U>>> Step<V, Option<T>, Option<U>> for OptAndThen<S> {
    open spec fn pre(&self, w: World<V>, x: Option<T>) -> bool {
        match x { Some(t) => self.s.pre(w, t), None => true }
    }

    open spec fn rel(&self, next: &Self, w0: World<V>, x: Option<T>, w1: World<V>, out: Option<U>) -> bool {
        match x {
            Some(t) => self.s.rel(&next.s, w0, t, w1, out),
            None => out is None && w1 == w0 && next.s == self.s,
        }
    }

    fn call(&mut self, world: &mut World<V>, x: Option<T>) -> (out: Option<U>) {
        match x {
            Some(t) => self.s.call(world, t),
            None => None,
        }
    }
}

/// Run a side effect when the value is `None`; the value passes through.
pub struct OnNone<S> {
    /// The side effect.
    pub s: S,
}

impl<V, T, S: Step<V, (), ()>> Step<V, Option<T>, Option<T>> for OnNone<S> {
    open spec fn pre(&self, w: World<V>, x: Option<T>) -> bool {
        x is None ==> self.s.pre(w, ())
    }

    open spec fn rel(&self, next: &Self, w0: World<V>, x: Option<T>, w1: World<V>, out: Option<T>) -> bool {
        out == x && if x is None {
            self.s.rel(&next.s, w0, (), w1, ())
        } else {
            w1 == w0 && next.s == self.s
        }
    }

    fn call(&mut self, world: &mut World<V>, x: Option<T>) -> (out: Option<T>) {
        if x.is_none() {
            self.s.call(world, ());
        }
        x
    }
}

/// Keep the `Some` value only when a by-reference predicate holds.
pub struct OptFilter<S> {
    /// The predicate.
    pub s: S,
}

impl<V, T, S: RefStep<V, T, bool>> Step<V, Option<T>, Option<T>> for OptFilter<S> {
    open spec fn pre(&self, w: World<V>, x: Option<T>) -> bool {
        match x { Some(t) => self.s.pre(w, t), None => true }
    }

    open spec fn rel(&self, next: &Self, w0: World<V>, x: Option<T>, w1: World<V>, out: Option<T>) -> bool {
        match x {
            Some(t) => exists|b: bool| self.s.rel(&next.s, w0, t, w1, b) && out == (if b { Some(t) } else { None }),
            None => out is None && w1 == w0 && next.s == self.s,
        }
    }

    fn call(&mut self, world: &mut World<V>, x: Option<T>) -> (out: Option<T>) {
        match x {
            Some(t) => {
                let b = self.s.call(world, &t);
                assert(old(self).s.rel(&self.s, *old(world), t, *world, b));
                if b { Some(t) } else { None }
            },
            None => None,
        }
    }
}

/// Observe the `Some` value by reference; the value passes through.
pub struct OptInspect<S> {
    /// The observer.
    pub s: S,
}

impl<V, T, S: RefStep<V, T, ()>> Step<V, Option<T>, Option<T>> for OptInspect<S> {
    open spec fn pre(&self, w: World<V>, x: Option<T>) -> bool {
        match x { Some(t) => self.s.pre(w, t), None => true }
    }

    open spec fn rel(&self, next: &Self, w0: World<V>, x: Option<T>, w1: World<V>, out: Option<T>) -> bool {
        out == x && match x {
            Some(t) => self.s.rel(&next.s, w0, t, w1, ()),
            None => w1 == w0 && next.s == self.s,
        }
    }

    fn call(&mut self, world: &mut World<V>, x: Option<T>) -> (out: Option<T>) {
        match &x {
            Some(t) => { self.s.call(world, t); },
            None => {},
        }
        x
    }
}

/// `Some(t)` becomes `Ok(t)`; `None` becomes `Err` of a clone of the
/// stored error.
pub struct OkOr<E> {
    /// The error used for `None`.
    pub err: E,
}

impl<V, T, E: Clone> Step<V, Option<T>, Result<T, E>> for OkOr<E> {
    open spec fn pre(&self, w: World<V>, x: Option<T>) -> bool {
        true
    }

    open spec fn rel(&self, next: &Self, w0: World<V>, x: Option<T>, w1: World<V>, out: Result<T, E>) -> bool {
        w1 == w0 && next.err == self.err && match x {
            Some(t) => out == Ok::<T, E>(t),
            None => out is Err && cloned(self.err, out->Err_0),
        }
    }

    fn call(&mut self, world: &mut World<V>, x: Option<T>) -> (out: Result<T, E>) {
        match x {
            Some(t) => Ok(t),
            None => Err(self.err.clone()),
        }
    }
}

/// `Some(t)` becomes `Ok(t)`; `None` becomes `Err` of a producer's output.
pub struct OkOrElse<S> {
    /// The error producer.
    pub s: S,
}

impl<V, T, E, S: Step<V, (), E>> Step<V, Option<T>, Result<T, E>> for OkOrElse<S> {
    open spec fn pre(&self, w: World<V>, x: Option<T>) -> bool {
        x is None ==> self.s.pre(w, ())
    }

    open spec fn rel(&self, next: &Self, w0: World<V>, x: Option<T>, w1: World<V>, out: Result<T, E>) -> bool {
        match x {
            Some(t) => out == Ok::<T, E>(t) && w1 == w0 && next.s == self.s,
            None => exists|e: E| self.s.rel(&next.s, w0, (), w1, e) && out == Err::<T, E>(e),
        }
    }

    fn call(&mut self, world: &mut World<V>, x: Option<T>) -> (out: Result<T, E>) {
        match x {
            Some(t) => Ok(t),
            None => {
                let e = self.s.call(world, ());
                assert(old(self).s.rel(&self.s, *old(world), (), *world, e));
                Err(e)
            },
        }
    }
}

/// Resolve `None` to a clone of a default value.
pub struct OptUnwrapOr<T> {
    /// The default.
    pub default: T,
}

impl<V, T: Clone> Step<V, Option<T>, T> for OptUnwrapOr<T> {
    open spec fn pre(&self, w: World<V>, x: Option<T>) -> bool {
        true
    }

    open spec fn rel(&self, next: &Self, w0: World<V>, x: Option<T>, w1: World<V>, out: T) -> bool {
        w1 == w0 && next.default == self.default && match x {
            Some(t) => out == t,
            None => cloned(self.default, out),
        }
    }

    fn call(&mut self, world: &mut World<V>, x: Option<T>) -> (out: T) {
        match x {
            Some(t) => t,
            None => self.default.clone(),
        }
    }
}

/// Resolve `None` with a producer's output.
pub struct OptUnwrapOrElse<S> {
    /// The producer.
    pub s: S,
}

impl<V, T, S: Step<V, (), T>> Step<V, Option<T>, T> for OptUnwrapOrElse<S> {
    open spec fn pre(&self, w: World<V>, x: Option<T>) -> bool {
        x is None ==> self.s.pre(w, ())
    }

    open spec fn rel(&self, next: &Self, w0: World<V>, x: Option<T>, w1: World<V>, out: T) -> bool {
        match x {
            Some(t) => out == t && w1 == w0 && next.s == self.s,
            None => self.s.rel(&next.s, w0, (), w1, out),
        }
    }

    fn call(&mut self, world: &mut World<V>, x: Option<T>) -> (out: T) {
        match x {
            Some(t) => t,
            None => self.s.call(world, ()),
        }
    }
}

// =============================================================================
// Result combinators
// =============================================================================

/// Apply a step to the `Ok` value; `Err` passes through.
pub struct ResMap<S> {
    /// The step.
    pub s: S,
}

impl<V, T, U, E, S: Step<V, T, U>> Step<V, Result<T, E>, Result<U, E>> for ResMap<S> {
    open spec fn pre(&self, w: World<V>, x: Result<T, E>) -> bool {
        match x { Ok(t) => self.s.pre(w, t), Err(_) => true }
    }

    open spec fn rel(&self, next: &Self, w0: World<V>, x: Result<T, E>, w1: World<V>, out: Result<U, E>) -> bool {
        match x {
            Ok(t) => exists|u: U| self.s.rel(&next.s, w0, t, w1, u) && out == Ok::<U, E>(u),
            Err(e) => out == Err::<U, E>(e) && w1 == w0 && next.s == self.s,
        }
    }

    fn call(&mut self, world: &mut World<V>, x: Result<T, E>) -> (out: Result<U, E>) {
        match x {
            Ok(t) => {
                let u = self.s.call(world, t);
                assert(old(self).s.rel(&self.s, *old(world), t, *world, u));
                Ok(u)
            },
            Err(e) => Err(e),
        }
    }
}

/// Apply a `Result`-returning step to the `Ok` value; `Err` passes through.
pub struct ResAndThen<S> {
    /// The step.
    pub s: S,
}

impl<V, T, U, E, S: Step<V, T, Result<U, E>>> Step<V, Result<T, E>, Result<U, E>> for ResAndThen<S> {
    open spec fn pre(&self, w: World<V>, x: Result<T, E>) -> bool {
        match x { Ok(t) => self.s.pre(w, t), Err(_) => true }
    }

    open spec fn rel(&self, next: &Self, w0: World<V>, x: Result<T, E>, w1: World<V>, out: Result<U, E>) -> bool {
        match x {
            Ok(t) => self.s.rel(&next.s, w0, t, w1, out),
            Err(e) => out == Err::<U, E>(e) && w1 == w0 && next.s == self.s,
        }
    }

    fn call(&mut self, world: &mut World<V>, x: Result<T, E>) -> (out: Result<U, E>) {
        match x {
            Ok(t) => self.s.call(world, t),
            Err(e) => Err(e),
        }
    }
}

/// Handle the error with a step and continue with `Option`: `Ok(t)`
/// becomes `Some(t)`, `Err(e)` runs the handler and becomes `None`.
pub struct Catch<S> {
    /// The error handler.
    pub s: S,
}

impl<V, T, E, S: Step<V, E, ()>> Step<V, Result<T, E>, Option<T>> for Catch<S> {
    open spec fn pre(&self, w: World<V>, x: Result<T, E>) -> bool {
        match x { Err(e) => self.s.pre(w, e), Ok(_) => true }
    }

    open spec fn rel(&self, next: &Self, w0: World<V>, x: Result<T, E>, w1: World<V>, out: Option<T>) -> bool {
        match x {
            Ok(t) => out == Some(t) && w1 == w0 && next.s == self.s,
            Err(e) => out is None && self.s.rel(&next.s, w0, e, w1, ()),
        }
    }

    fn call(&mut self, world: &mut World<V>, x: Result<T, E>) -> (out: Option<T>) {
        match x {
            Ok(t) => Some(t),
            Err(e) => { self.s.call(world, e); None },
        }
    }
}

/// Transform the error with a step; `Ok` passes through.
pub struct MapErr<S> {
    /// The error transform.
    pub s: S,
}

impl<V, T, E, E2, S: Step<V, E, E2>> Step<V, Result<T, E>, Result<T, E2>> for MapErr<S> {
    open spec fn pre(&self, w: World<V>, x: Result<T, E>) -> bool {
        match x { Err(e) => self.s.pre(w, e), Ok(_) => true }
    }

    open spec fn rel(&self, next: &Self, w0: World<V>, x: Result<T, E>, w1: World<V>, out: Result<T, E2>) -> bool {
        match x {
            Ok(t) => out == Ok::<T, E2>(t) && w1 == w0 && next.s == self.s,
            Err(e) => exists|e2: E2| self.s.rel(&next.s, w0, e, w1, e2) && out == Err::<T, E2>(e2),
        }
    }

    fn call(&mut self, world: &mut World<V>, x: Result<T, E>) -> (out: Result<T, E2>) {
        match x {
            Ok(t) => Ok(t),
            Err(e) => {
                let e2 = self.s.call(world, e);
                assert(old(self).s.rel(&self.s, *old(world), e, *world, e2));
                Err(e2)
            },
        }
    }
}

/// Recover from the error with a `Result`-returning step; `Ok` passes
/// through.
pub struct OrElse<S> {
    /// The recovery step.
    pub s: S,
}

impl<V, T, E, E2, S: Step<V, E, Result<T, E2>>> Step<V, Result<T, E>, Result<T, E2>> for OrElse<S> {
    open spec fn pre(&self, w: World<V>, x: Result<T, E>) -> bool {
        match x { Err(e) => self.s.pre(w, e), Ok(_) => true }
    }

    open spec fn rel(&self, next: &Self, w0: World<V>, x: Result<T, E>, w1: World<V>, out: Result<T, E2>) -> bool {
        match x {
            Ok(t) => out == Ok::<T, E2>(t) && w1 == w0 && next.s == self.s,
            Err(e) => self.s.rel(&next.s, w0, e, w1, out),
        }
    }

    fn call(&mut self, world: &mut World<V>, x: Result<T, E>) -> (out: Result<T, E2>) {
        match x {
            Ok(t) => Ok(t),
            Err(e) => self.s.call(world, e),
        }
    }
}

/// Observe the `Ok` value by reference; the result passes through.
pub struct ResInspect<S> {
    /// The observer.
    pub s: S,
}

impl<V, T, E, S: RefStep<V, T, ()>> Step<V, Result<T, E>, Result<T, E>> for ResInspect<S> {
    open spec fn pre(&self, w: World<V>, x: Result<T, E>) -> bool {
        match x { Ok(t) => self.s.pre(w, t), Err(_) => true }
    }

    open spec fn rel(&self, next: &Self, w0: World<V>, x: Result<T, E>, w1: World<V>, out: Result<T, E>) -> bool {
        out == x && match x {
            Ok(t) => self.s.rel(&next.s, w0, t, w1, ()),
            Err(_) => w1 == w0 && next.s == self.s,
        }
    }

    fn call(&mut self, world: &mut World<V>, x: Result<T, E>) -> (out: Result<T, E>) {
        match &x {
            Ok(t) => { self.s.call(world, t); },
            Err(_) => {},
        }
        x
    }
}

/// Observe the `Err` value by reference; the result passes through.
pub struct InspectErr<S> {
    /// The observer.
    pub s: S,
}

impl<V, T, E, S: RefStep<V, E, ()>> Step<V, Result<T, E>, Result<T, E>> for InspectErr<S> {
    open spec fn pre(&self, w: World<V>, x: Result<T, E>) -> bool {
        match x { Err(e) => self.s.pre(w, e), Ok(_) => true }
    }

    open spec fn rel(&self, next: &Self, w0: World<V>, x: Result<T, E>, w1: World<V>, out: Result<T, E>) -> bool {
        out == x && match x {
            Err(e) => self.s.rel(&next.s, w0, e, w1, ()),
            Ok(_) => w1 == w0 && next.s == self.s,
        }
    }

    fn call(&mut self, world: &mut World<V>, x: Result<T, E>) -> (out: Result<T, E>) {
        match &x {
            Err(e) => { self.s.call(world, e); },
            Ok(_) => {},
        }
        x
    }
}

/// Discard the error: `Ok(t)` becomes `Some(t)`, `Err` becomes `None`.
pub struct ResOk;

impl<V, T, E> Step<V, Result<T, E>, Option<T>> for ResOk {
    open spec fn pre(&self, w: World<V>, x: Result<T, E>) -> bool {
        true
    }

    open spec fn rel(&self, next: &Self, w0: World<V>, x: Result<T, E>, w1: World<V>, out: Option<T>) -> bool {
        w1 == w0 && match x {
            Ok(t) => out == Some(t),
            Err(_) => out is None,
        }
    }

    fn call(&mut self, world: &mut World<V>, x: Result<T, E>) -> (out: Option<T>) {
        match x {
            Ok(t) => Some(t),
            Err(_) => None,
        }
    }
}

/// Resolve `Err` to a clone of a default value.
pub struct ResUnwrapOr<T> {
    /// The default.
    pub default: T,
}

impl<V, T: Clone, E> Step<V, Result<T, E>, T> for ResUnwrapOr<T> {
    open spec fn pre(&self, w: World<V>, x: Result<T, E>) -> bool {
        true
    }

    open spec fn rel(&self, next: &Self, w0: World<V>, x: Result<T, E>, w1: World<V>, out: T) -> bool {
        w1 == w0 && next.default == self.default && match x {
            Ok(t) => out == t,
            Err(_) => cloned(self.default, out),
        }
    }

    fn call(&mut self, world: &mut World<V>, x: Result<T, E>) -> (out: T) {
        match x {
            Ok(t) => t,
            Err(_) => self.default.clone(),
        }
    }
}

/// Resolve `Err` by mapping the error to a value with a step.
pub struct ResUnwrapOrElse<S> {
    /// The step.
    pub s: S,
}

impl<V, T, E, S: Step<V, E, T>> Step<V, Result<T, E>, T> for ResUnwrapOrElse<S> {
    open spec fn pre(&self, w: World<V>, x: Result<T, E>) -> bool {
        match x { Err(e) => self.s.pre(w, e), Ok(_) => true }
    }

    open spec fn rel(&self, next: &Self, w0: World<V>, x: Result<T, E>, w1: World<V>, out: T) -> bool {
        match x {
            Ok(t) => out == t && w1 == w0 && next.s == self.s,
            Err(e) => self.s.rel(&next.s, w0, e, w1, out),
        }
    }

    fn call(&mut self, world: &mut World<V>, x: Result<T, E>) -> (out: T) {
        match x {
            Ok(t) => t,
            Err(e) => self.s.call(world, e),
        }
    }
}

// =============================================================================
// Bool combinators
// =============================================================================

/// Logical negation.
pub struct Not;

impl<V> Step<V, bool, bool> for Not {
    open spec fn pre(&self, w: World<V>, x: bool) -> bool {
        true
    }

    open spec fn rel(&self, next: &Self, w0: World<V>, x: bool, w1: World<V>, out: bool) -> bool {
        w1 == w0 && out == !x
    }

    fn call(&mut self, world: &mut World<V>, x: bool) -> (out: bool) {
        !x
    }
}

/// Short-circuit AND with a producer: the producer runs only on `true`.
pub struct And<S> {
    /// The producer.
    pub s: S,
}

impl<V, S: Step<V, (), bool>> Step<V, bool, bool> for And<S> {
    open spec fn pre(&self, w: World<V>, x: bool) -> bool {
        x ==> self.s.pre(w, ())
    }

    open spec fn rel(&self, next: &Self, w0: World<V>, x: bool, w1: World<V>, out: bool) -> bool {
        if x { self.s.rel(&next.s, w0, (), w1, out) } else { !out && w1 == w0 && next.s == self.s }
    }

    fn call(&mut self, world: &mut World<V>, x: bool) -> (out: bool) {
        if x { self.s.call(world, ()) } else { false }
    }
}

/// Short-circuit OR with a producer: the producer runs only on `false`.
pub struct Or<S> {
    /// The producer.
    pub s: S,
}

impl<V, S: Step<V, (), bool>> Step<V, bool, bool> for Or<S> {
    open spec fn pre(&self, w: World<V>, x: bool) -> bool {
        !x ==> self.s.pre(w, ())
    }

    open spec fn rel(&self, next: &Self, w0: World<V>, x: bool, w1: World<V>, out: bool) -> bool {
        if !x { self.s.rel(&next.s, w0, (), w1, out) } else { out && w1 == w0 && next.s == self.s }
    }

    fn call(&mut self, world: &mut World<V>, x: bool) -> (out: bool) {
        if x { true } else { self.s.call(world, ()) }
    }
}

/// XOR with a producer; both sides always run.
pub struct Xor<S> {
    /// The producer.
    pub s: S,
}

impl<V, S: Step<V, (), bool>> Step<V, bool, bool> for Xor<S> {
    open spec fn pre(&self, w: World<V>, x: bool) -> bool {
        self.s.pre(w, ())
    }

    open spec fn rel(&self, next: &Self, w0: World<V>, x: bool, w1: World<V>, out: bool) -> bool {
        exists|b: bool| self.s.rel(&next.s, w0, (), w1, b) && out == (x != b)
    }

    fn call(&mut self, world: &mut World<V>, x: bool) -> (out: bool) {
        let b = self.s.call(world, ());
        assert(old(self).s.rel(&self.s, *old(world), (), *world, b));
        x != b
    }
}

// =============================================================================
// Dispatch
// =============================================================================

/// Hand the value to a handler.
pub struct Dispatch<H> {
    /// The handler.
    pub h: H,
}

impl<V, T, H: Handler<V, T>> Step<V, T, ()> for Dispatch<H> {
    open spec fn pre(&self, w: World<V>, x: T) -> bool {
        self.h.h_pre(w, x)
    }

    open spec fn rel(&self, next: &Self, w0: World<V>, x: T, w1: World<V>, out: ()) -> bool {
        self.h.h_rel(w0, x, w1)
    }

    fn call(&mut self, world: &mut World<V>, x: T) -> (out: ()) {
        self.h.run(world, x)
    }
}

/// Discard a unit-like `Option<()>` output.
pub struct Discard;

impl<V, T> Step<V, T, ()> for Discard {
    open spec fn pre(&self, w: World<V>, x: T) -> bool {
        true
    }

    open spec fn rel(&self, next: &Self, w0: World<V>, x: T, w1: World<V>, out: ()) -> bool {
        w1 == w0
    }

    fn call(&mut self, world: &mut World<V>, x: T) -> (out: ()) {
    }
}


/// Call a function with the 2 elements of a tuple as separate arguments.
pub struct Splat2<F> {
    /// The function.
    pub f: F,
}

/// Splat a 2-tuple into the arguments of `f`.
pub fn splat2<F>(f: F) -> (r: Splat2<F>)
    ensures r.f == f,
{
    Splat2 { f }
}

impl<V, A, B, Out, F: Fn(A, B) -> Out> Step<V, (A, B), Out> for Splat2<F> {
    open spec fn pre(&self, w: World<V>, x: (A, B)) -> bool {
        call_requires(self.f, (x.0, x.1))
    }

    open spec fn rel(&self, next: &Self, w0: World<V>, x: (A, B), w1: World<V>, out: Out) -> bool {
        *next == *self && w1 == w0 && call_ensures(self.f, (x.0, x.1), out)
    }

    fn call(&mut self, world: &mut World<V>, x: (A, B)) -> (out: Out) {
        let (a, b) = x;
        (self.f)(a, b)
    }
}

/// Call a function with the 3 elements of a tuple as separate arguments.
pub struct Splat3<F> {
    /// The function.
    pub f: F,
}

/// Splat a 3-tuple into the arguments of `f`.
pub fn splat3<F>(f: F) -> (r: Splat3<F>)
    ensures r.f == f,
{
    Splat3 { f }
}

impl<V, A, B, C, Out, F: Fn(A, B, C) -> Out> Step<V, (A, B, C), Out> for Splat3<F> {
    open spec fn pre(&self, w: World<V>, x: (A, B, C)) -> bool {
        call_requires(self.f, (x.0, x.1, x.2))
    }

    open spec fn rel(&self, next: &Self, w0: World<V>, x: (A, B, C), w1: World<V>, out: Out) -> bool {
        *next == *self && w1 == w0 && call_ensures(self.f, (x.0, x.1, x.2), out)
    }

    fn call(&mut self, world: &mut World<V>, x: (A, B, C)) -> (out: Out) {
        let (a, b, c) = x;
        (self.f)(a, b, c)
    }
}

/// Call a function with the 4 elements of a tuple as separate arguments.
pub struct Splat4<F> {
    /// The function.
    pub f: F,
}

/// Splat a 4-tuple into the arguments of `f`.
pub fn splat4<F>(f: F) -> (r: Splat4<F>)
    ensures r.f == f,
{
    Splat4 { f }
}

impl<V, A, B, C, D, Out, F: Fn(A, B, C, D) -> Out> Step<V, (A, B, C, D), Out> for Splat4<F> {
    open spec fn pre(&self, w: World<V>, x: (A, B, C, D)) -> bool {
        call_requires(self.f, (x.0, x.1, x.2, x.3))
    }

    open spec fn rel(&self, next: &Self, w0: World<V>, x: (A, B, C, D), w1: World<V>, out: Out) -> bool {
        *next == *self && w1 == w0 && call_ensures(self.f, (x.0, x.1, x.2, x.3), out)
    }

    fn call(&mut self, world: &mut World<V>, x: (A, B, C, D)) -> (out: Out) {
        let (a, b, c, d) = x;
        (self.f)(a, b, c, d)
    }
}

/// Call a function with the 5 elements of a tuple as separate arguments.
pub struct Splat5<F> {
    /// The function.
    pub f: F,
}

/// Splat a 5-tuple into the arguments of `f`.
pub fn splat5<F>(f: F) -> (r: Splat5<F>)
    ensures r.f == f,
{
    Splat5 { f }
}

impl<V, A, B, C, D, E, Out, F: Fn(A, B, C, D, E) -> Out> Step<V, (A, B, C, D, E), Out> for Splat5<F> {
    open spec fn pre(&self, w: World<V>, x: (A, B, C, D, E)) -> bool {
        call_requires(self.f, (x.0, x.1, x.2, x.3, x.4))
    }

    open spec fn rel(&self, next: &Self, w0: World<V>, x: (A, B, C, D, E), w1: World<V>, out: Out) -> bool {
        *next == *self && w1 == w0 && call_ensures(self.f, (x.0, x.1, x.2, x.3, x.4), out)
    }

    fn call(&mut self, world: &mut World<V>, x: (A, B, C, D, E)) -> (out: Out) {
        let (a, b, c, d, e) = x;
        (self.f)(a, b, c, d, e)
    }
}

/// Clone a borrowed value into an owned one (`T::clone`).
pub struct ClonedRef;

impl<'a, V, T: Clone> Step<V, &'a T, T> for ClonedRef {
    open spec fn pre(&self, w: World<V>, x: &'a T) -> bool {
        true
    }

    open spec fn rel(&self, next: &Self, w0: World<V>, x: &'a T, w1: World<V>, out: T) -> bool {
        *next == *self && w1 == w0 && strictly_cloned(*x, out)
    }

    fn call(&mut self, world: &mut World<V>, x: &'a T) -> (out: T) {
        T::clone(x)
    }
}

/// Clone the borrowed `Some` value.
pub struct OptCloned;

impl<'a, V, T: Clone> Step<V, Option<&'a T>, Option<T>> for OptCloned {
    open spec fn pre(&self, w: World<V>, x: Option<&'a T>) -> bool {
        true
    }

    open spec fn rel(&self, next: &Self, w0: World<V>, x: Option<&'a T>, w1: World<V>, out: Option<T>) -> bool {
        *next == *self && w1 == w0 && match x {
            Some(r) => out matches Some(t) && strictly_cloned(*r, t),
            None => out is None,
        }
    }

    fn call(&mut self, world: &mut World<V>, x: Option<&'a T>) -> (out: Option<T>) {
        match x {
            Some(r) => Some(T::clone(r)),
            None => None,
        }
    }
}

/// Clone the borrowed `Ok` value.
pub struct ResCloned;

impl<'a, V, T: Clone, E> Step<V, Result<&'a T, E>, Result<T, E>> for ResCloned {
    open spec fn pre(&self, w: World<V>, x: Result<&'a T, E>) -> bool {
        true
    }

    open spec fn rel(&self, next: &Self, w0: World<V>, x: Result<&'a T, E>, w1: World<V>, out: Result<T, E>) -> bool {
        *next == *self && w1 == w0 && match x {
            Ok(r) => out matches Ok(t) && strictly_cloned(*r, t),
            Err(e) => out == Err::<T, E>(e),
        }
    }

    fn call(&mut self, world: &mut World<V>, x: Result<&'a T, E>) -> (out: Result<T, E>) {
        match x {
            Ok(r) => Ok(T::clone(r)),
            Err(e) => Err(e),
        }
    }
}

// =============================================================================
// Builder
// =============================================================================

/// Entry point of a pipeline over input type `In`.
pub struct PipelineStart<V, In> {
    /// Types the pipeline is built for.
    pub marker: PhantomData<(V, In)>,
}

impl<V, In> PipelineStart<V, In> {
    /// Begin a pipeline.
    pub fn new() -> (r: PipelineBuilder<V, In, In, Ident>)
        ensures r.chain == Ident,
    {
        PipelineBuilder { chain: Ident, marker: PhantomData }
    }
}

/// A pipeline under construction: `chain` maps `In` to `Out`.
pub struct PipelineBuilder<V, In, Out, C> {
    /// The chain of steps built so far.
    pub chain: C,
    /// Types the pipeline is built for.
    pub marker: PhantomData<(V, In, Out)>,
}

impl<V, In, Out, C: Step<V, In, Out>> PipelineBuilder<V, In, Out, C> {
    /// Append a step.
    pub fn then_step<NewOut, S: Step<V, Out, NewOut>>(self, s: S) -> (r: PipelineBuilder<V, In, NewOut, Then<C, S, Out>>)
        ensures r.chain == (Then { a: self.chain, b: s, marker: PhantomData::<Out> }),
    {
        PipelineBuilder { chain: Then { a: self.chain, b: s, marker: PhantomData }, marker: PhantomData }
    }

    /// Run the pipeline once.
    pub fn run(&mut self, world: &mut World<V>, input: In) -> (out: Out)
        requires old(self).chain.pre(*old(world), input),
        ensures old(self).chain.rel(&final(self).chain, *old(world), input, *final(world), out),
    {
        self.chain.call(world, input)
    }

    /// Hand the output to a handler.
    pub fn dispatch<H: Handler<V, Out>>(self, h: H) -> (r: PipelineBuilder<V, In, (), Then<C, Dispatch<H>, Out>>)
        ensures r.chain == (Then { a: self.chain, b: Dispatch { h }, marker: PhantomData::<Out> }),
    {
        self.then_step(Dispatch { h })
    }

    /// `Some(out)` when a by-reference predicate holds, `None` otherwise.
    pub fn guard<S: RefStep<V, Out, bool>>(self, s: S) -> (r: PipelineBuilder<V, In, Option<Out>, Then<C, Guard<S>, Out>>)
        ensures r.chain == (Then { a: self.chain, b: Guard { s }, marker: PhantomData::<Out> }),
    {
        self.then_step(Guard { s })
    }

    /// Observe the output by reference.
    pub fn tap<S: RefStep<V, Out, ()>>(self, s: S) -> (r: PipelineBuilder<V, In, Out, Then<C, Tap<S>, Out>>)
        ensures r.chain == (Then { a: self.chain, b: Tap { s }, marker: PhantomData::<Out> }),
    {
        self.then_step(Tap { s })
    }

    /// Run a side chain on a borrow of the output.
    pub fn tee<S: RefStep<V, Out, ()>>(self, s: S) -> (r: PipelineBuilder<V, In, Out, Then<C, Tee<S>, Out>>)
        ensures r.chain == (Then { a: self.chain, b: Tee { s }, marker: PhantomData::<Out> }),
    {
        self.then_step(Tee { s })
    }

    /// Route the output to one of two sub-chains by a predicate.
    pub fn route<U, P: RefStep<V, Out, bool>, C0: Step<V, Out, U>, C1: Step<V, Out, U>>(self, pred: P, on_true: C0, on_false: C1)
        -> (r: PipelineBuilder<V, In, U, Then<C, Route<P, C0, C1>, Out>>)
        ensures r.chain == (Then { a: self.chain, b: Route { pred, on_true, on_false }, marker: PhantomData::<Out> }),
    {
        self.then_step(Route { pred, on_true, on_false })
    }

    /// Thread private state through the pipeline: `f(acc, out)` returns
    /// the new state and the next output.
    pub fn scan<A, NewOut, F: Fn(&A, Out) -> (A, NewOut)>(self, initial: A, f: F)
        -> (r: PipelineBuilder<V, In, NewOut, Then<C, crate::step::Scan<A, F>, Out>>)
        ensures r.chain == (Then { a: self.chain, b: crate::step::Scan { acc: initial, f }, marker: PhantomData::<Out> }),
    {
        self.then_step(crate::step::Scan { acc: initial, f })
    }

    /// Suppress consecutive equal outputs.
    pub fn dedup(self) -> (r: PipelineBuilder<V, In, Option<Out>, Then<C, Dedup<Out>, Out>>)
        where Out: PartialEq + Clone,
        ensures r.chain == (Then { a: self.chain, b: Dedup::<Out> { prev: None }, marker: PhantomData::<Out> }),
    {
        self.then_step(Dedup { prev: None })
    }

    /// Finalize into a batch pipeline with an input buffer of the given
    /// initial capacity.
    pub fn build_batch(self, capacity: usize) -> (r: BatchPipeline<V, In, Out, C>)
        where Out: PipelineOutput,
        ensures r.chain == self.chain, r.input@.len() == 0,
    {
        BatchPipeline { input: Vec::with_capacity(capacity), chain: self.chain, marker: PhantomData }
    }
}

impl<V, In, T, C: Step<V, In, Option<T>>> PipelineBuilder<V, In, Option<T>, C> {
    /// Apply a step to the `Some` value.
    pub fn map<U, S: Step<V, T, U>>(self, s: S) -> (r: PipelineBuilder<V, In, Option<U>, Then<C, OptMap<S>, Option<T>>>)
        ensures r.chain == (Then { a: self.chain, b: OptMap { s }, marker: PhantomData::<Option<T>> }),
    {
        self.then_step(OptMap { s })
    }

    /// Apply an `Option`-returning step to the `Some` value.
    pub fn and_then<U, S: Step<V, T, Option<U>>>(self, s: S) -> (r: PipelineBuilder<V, In, Option<U>, Then<C, OptAndThen<S>, Option<T>>>)
        ensures r.chain == (Then { a: self.chain, b: OptAndThen { s }, marker: PhantomData::<Option<T>> }),
    {
        self.then_step(OptAndThen { s })
    }

    /// Run a side effect on `None`.
    pub fn on_none<S: Step<V, (), ()>>(self, s: S) -> (r: PipelineBuilder<V, In, Option<T>, Then<C, OnNone<S>, Option<T>>>)
        ensures r.chain == (Then { a: self.chain, b: OnNone { s }, marker: PhantomData::<Option<T>> }),
    {
        self.then_step(OnNone { s })
    }

    /// Keep the `Some` value only when a predicate holds.
    pub fn filter<S: RefStep<V, T, bool>>(self, s: S) -> (r: PipelineBuilder<V, In, Option<T>, Then<C, OptFilter<S>, Option<T>>>)
        ensures r.chain == (Then { a: self.chain, b: OptFilter { s }, marker: PhantomData::<Option<T>> }),
    {
        self.then_step(OptFilter { s })
    }

    /// Observe the `Some` value.
    pub fn inspect<S: RefStep<V, T, ()>>(self, s: S) -> (r: PipelineBuilder<V, In, Option<T>, Then<C, OptInspect<S>, Option<T>>>)
        ensures r.chain == (Then { a: self.chain, b: OptInspect { s }, marker: PhantomData::<Option<T>> }),
    {
        self.then_step(OptInspect { s })
    }

    /// `None` becomes `Err(err.clone())`.
    pub fn ok_or<E: Clone>(self, err: E) -> (r: PipelineBuilder<V, In, Result<T, E>, Then<C, OkOr<E>, Option<T>>>)
        ensures r.chain == (Then { a: self.chain, b: OkOr { err }, marker: PhantomData::<Option<T>> }),
    {
        self.then_step(OkOr { err })
    }

    /// `None` becomes `Err` of a producer's output.
    pub fn ok_or_else<E, S: Step<V, (), E>>(self, s: S) -> (r: PipelineBuilder<V, In, Result<T, E>, Then<C, OkOrElse<S>, Option<T>>>)
        ensures r.chain == (Then { a: self.chain, b: OkOrElse { s }, marker: PhantomData::<Option<T>> }),
    {
        self.then_step(OkOrElse { s })
    }

    /// Resolve `None` to a default.
    pub fn unwrap_or(self, default: T) -> (r: PipelineBuilder<V, In, T, Then<C, OptUnwrapOr<T>, Option<T>>>)
        where T: Clone,
        ensures r.chain == (Then { a: self.chain, b: OptUnwrapOr { default }, marker: PhantomData::<Option<T>> }),
    {
        self.then_step(OptUnwrapOr { default })
    }

    /// Resolve `None` with a producer.
    pub fn unwrap_or_else<S: Step<V, (), T>>(self, s: S) -> (r: PipelineBuilder<V, In, T, Then<C, OptUnwrapOrElse<S>, Option<T>>>)
        ensures r.chain == (Then { a: self.chain, b: OptUnwrapOrElse { s }, marker: PhantomData::<Option<T>> }),
    {
        self.then_step(OptUnwrapOrElse { s })
    }
}

impl<V, In, T, E, C: Step<V, In, Result<T, E>>> PipelineBuilder<V, In, Result<T, E>, C> {
    /// Apply a step to the `Ok` value.
    pub fn map<U, S: Step<V, T, U>>(self, s: S) -> (r: PipelineBuilder<V, In, Result<U, E>, Then<C, ResMap<S>, Result<T, E>>>)
        ensures r.chain == (Then { a: self.chain, b: ResMap { s }, marker: PhantomData::<Result<T, E>> }),
    {
        self.then_step(ResMap { s })
    }

    /// Apply a `Result`-returning step to the `Ok` value.
    pub fn and_then<U, S: Step<V, T, Result<U, E>>>(self, s: S) -> (r: PipelineBuilder<V, In, Result<U, E>, Then<C, ResAndThen<S>, Result<T, E>>>)
        ensures r.chain == (Then { a: self.chain, b: ResAndThen { s }, marker: PhantomData::<Result<T, E>> }),
    {
        self.then_step(ResAndThen { s })
    }

    /// Handle the error and continue with `Option`.
    pub fn catch<S: Step<V, E, ()>>(self, s: S) -> (r: PipelineBuilder<V, In, Option<T>, Then<C, Catch<S>, Result<T, E>>>)
        ensures r.chain == (Then { a: self.chain, b: Catch { s }, marker: PhantomData::<Result<T, E>> }),
    {
        self.then_step(Catch { s })
    }

    /// Transform the error.
    pub fn map_err<E2, S: Step<V, E, E2>>(self, s: S) -> (r: PipelineBuilder<V, In, Result<T, E2>, Then<C, MapErr<S>, Result<T, E>>>)
        ensures r.chain == (Then { a: self.chain, b: MapErr { s }, marker: PhantomData::<Result<T, E>> }),
    {
        self.then_step(MapErr { s })
    }

    /// Recover from the error.
    pub fn or_else<E2, S: Step<V, E, Result<T, E2>>>(self, s: S) -> (r: PipelineBuilder<V, In, Result<T, E2>, Then<C, OrElse<S>, Result<T, E>>>)
        ensures r.chain == (Then { a: self.chain, b: OrElse { s }, marker: PhantomData::<Result<T, E>> }),
    {
        self.then_step(OrElse { s })
    }

    /// Observe the `Ok` value.
    pub fn inspect<S: RefStep<V, T, ()>>(self, s: S) -> (r: PipelineBuilder<V, In, Result<T, E>, Then<C, ResInspect<S>, Result<T, E>>>)
        ensures r.chain == (Then { a: self.chain, b: ResInspect { s }, marker: PhantomData::<Result<T, E>> }),
    {
        self.then_step(ResInspect { s })
    }

    /// Observe the `Err` value.
    pub fn inspect_err<S: RefStep<V, E, ()>>(self, s: S) -> (r: PipelineBuilder<V, In, Result<T, E>, Then<C, InspectErr<S>, Result<T, E>>>)
        ensures r.chain == (Then { a: self.chain, b: InspectErr { s }, marker: PhantomData::<Result<T, E>> }),
    {
        self.then_step(InspectErr { s })
    }

    /// Discard the error.
    pub fn ok(self) -> (r: PipelineBuilder<V, In, Option<T>, Then<C, ResOk, Result<T, E>>>)
        ensures r.chain == (Then { a: self.chain, b: ResOk, marker: PhantomData::<Result<T, E>> }),
    {
        self.then_step(ResOk)
    }

    /// Resolve `Err` to a default.
    pub fn unwrap_or(self, default: T) -> (r: PipelineBuilder<V, In, T, Then<C, ResUnwrapOr<T>, Result<T, E>>>)
        where T: Clone,
        ensures r.chain == (Then { a: self.chain, b: ResUnwrapOr { default }, marker: PhantomData::<Result<T, E>> }),
    {
        self.then_step(ResUnwrapOr { default })
    }

    /// Resolve `Err` with a step on the error.
    pub fn unwrap_or_else<S: Step<V, E, T>>(self, s: S) -> (r: PipelineBuilder<V, In, T, Then<C, ResUnwrapOrElse<S>, Result<T, E>>>)
        ensures r.chain == (Then { a: self.chain, b: ResUnwrapOrElse { s }, marker: PhantomData::<Result<T, E>> }),
    {
        self.then_step(ResUnwrapOrElse { s })
    }
}

impl<V, In, C: Step<V, In, bool>> PipelineBuilder<V, In, bool, C> {
    /// Negate the output.
    pub fn not(self) -> (r: PipelineBuilder<V, In, bool, Then<C, Not, bool>>)
        ensures r.chain == (Then { a: self.chain, b: Not, marker: PhantomData::<bool> }),
    {
        self.then_step(Not)
    }

    /// Short-circuit AND with a producer.
    pub fn and<S: Step<V, (), bool>>(self, s: S) -> (r: PipelineBuilder<V, In, bool, Then<C, And<S>, bool>>)
        ensures r.chain == (Then { a: self.chain, b: And { s }, marker: PhantomData::<bool> }),
    {
        self.then_step(And { s })
    }

    /// Short-circuit OR with a producer.
    pub fn or<S: Step<V, (), bool>>(self, s: S) -> (r: PipelineBuilder<V, In, bool, Then<C, Or<S>, bool>>)
        ensures r.chain == (Then { a: self.chain, b: Or { s }, marker: PhantomData::<bool> }),
    {
        self.then_step(Or { s })
    }

    /// XOR with a producer.
    pub fn xor<S: Step<V, (), bool>>(self, s: S) -> (r: PipelineBuilder<V, In, bool, Then<C, Xor<S>, bool>>)
        ensures r.chain == (Then { a: self.chain, b: Xor { s }, marker: PhantomData::<bool> }),
    {
        self.then_step(Xor { s })
    }
}

impl<'a, V, In, T: Clone, C: Step<V, In, &'a T>> PipelineBuilder<V, In, &'a T, C> {
    /// Clone the borrowed output: `&T` becomes `T`.
    pub fn cloned(self) -> (r: PipelineBuilder<V, In, T, Then<C, ClonedRef, &'a T>>)
        ensures r.chain == (Then { a: self.chain, b: ClonedRef, marker: PhantomData::<&'a T> }),
    {
        self.then_step(ClonedRef)
    }
}

impl<'a, V, In, T: Clone, C: Step<V, In, Option<&'a T>>> PipelineBuilder<V, In, Option<&'a T>, C> {
    /// Clone the borrowed `Some` value: `Option<&T>` becomes `Option<T>`.
    pub fn cloned(self) -> (r: PipelineBuilder<V, In, Option<T>, Then<C, OptCloned, Option<&'a T>>>)
        ensures r.chain == (Then { a: self.chain, b: OptCloned, marker: PhantomData::<Option<&'a T>> }),
    {
        self.then_step(OptCloned)
    }
}

impl<'a, V, In, T: Clone, E, C: Step<V, In, Result<&'a T, E>>> PipelineBuilder<V, In, Result<&'a T, E>, C> {
    /// Clone the borrowed `Ok` value: `Result<&T, E>` becomes `Result<T, E>`.
    pub fn cloned(self) -> (r: PipelineBuilder<V, In, Result<T, E>, Then<C, ResCloned, Result<&'a T, E>>>)
        ensures r.chain == (Then { a: self.chain, b: ResCloned, marker: PhantomData::<Result<&'a T, E>> }),
    {
        self.then_step(ResCloned)
    }
}

impl<V, In, C: Step<V, In, ()>> PipelineBuilder<V, In, (), C> {
    /// Finalize a unit-returning pipeline into a handler.
    pub fn build(self) -> (r: Pipeline<V, In, C>)
        ensures r.chain == self.chain,
    {
        Pipeline { chain: self.chain, marker: PhantomData }
    }
}

impl<V, In, C: Step<V, In, Option<()>>> PipelineBuilder<V, In, Option<()>, C> {
    /// Finalize an `Option<()>`-returning pipeline into a handler,
    /// discarding the option.
    pub fn build(self) -> (r: Pipeline<V, In, Then<C, Discard, Option<()>>>)
        ensures r.chain == (Then { a: self.chain, b: Discard, marker: PhantomData::<Option<()>> }),
    {
        Pipeline { chain: Then { a: self.chain, b: Discard, marker: PhantomData }, marker: PhantomData }
    }
}

/// The outputs a finished pipeline may end with: `()`, or `Option<()>` when
/// the last stage may skip. `build_batch` takes only these, so a chain that
/// still produces a value is finished by a step that consumes it.
pub trait PipelineOutput {}

impl PipelineOutput for () {}

impl PipelineOutput for Option<()> {}

/// A built pipeline: a handler that runs the chain per event.
pub struct Pipeline<V, In, C> {
    /// The chain.
    pub chain: C,
    /// Types the pipeline is built for.
    pub marker: PhantomData<(V, In)>,
}

impl<V, E, C: Step<V, E, ()>> Handler<V, E> for Pipeline<V, E, C> {
    open spec fn h_pre(&self, w: World<V>, e: E) -> bool {
        self.chain.pre(w, e)
    }

    open spec fn h_rel(&self, w0: World<V>, e: E, w1: World<V>) -> bool {
        exists|c1: C| self.chain.rel(&c1, w0, e, w1, ())
    }

    fn run(&mut self, world: &mut World<V>, event: E) {
        let ghost e = event;
        self.chain.call(world, event);
        assert(old(self).chain.rel(&self.chain, *old(world), e, *world, ()));
    }

    open spec fn h_name(&self) -> &'static str {
        "Pipeline"
    }

    fn name(&self) -> &'static str {
        "Pipeline"
    }
}

/// What running a chain over a sequence of inputs, in order, may do: the
/// chain's state and the world evolve item by item.
pub open spec fn batch_rel<V, In, Out, C: Step<V, In, Out>>(c0: C, items: Seq<In>, w0: World<V>, c1: C, w1: World<V>) -> bool
    decreases items.len(),
{
    if items.len() == 0 {
        c1 == c0 && w1 == w0
    } else {
        exists|cm: C, wm: World<V>, o: Out|
            #[trigger] c0.rel(&cm, w0, items[0], wm, o) && batch_rel(cm, items.drop_first(), wm, c1, w1)
    }
}

/// The chain's precondition holds for every item of a batch, in every
/// state the earlier items can lead to.
pub open spec fn batch_pre<V, In, Out, C: Step<V, In, Out>>(c0: C, items: Seq<In>, w0: World<V>) -> bool
    decreases items.len(),
{
    items.len() > 0 ==> {
        &&& c0.pre(w0, items[0])
        &&& forall|cm: C, wm: World<V>, o: Out|
            #[trigger] c0.rel(&cm, w0, items[0], wm, o) ==> batch_pre(cm, items.drop_first(), wm)
    }
}

/// A pipeline that owns an input buffer; each run drains the buffer
/// through the chain, item by item, in insertion order.
pub struct BatchPipeline<V, In, Out, C> {
    /// Pending inputs.
    pub input: Vec<In>,
    /// The chain.
    pub chain: C,
    /// Types the pipeline is built for.
    pub marker: PhantomData<(V, Out)>,
}

impl<V, In, Out, C: Step<V, In, Out>> BatchPipeline<V, In, Out, C> {
    /// Mutable access to the input buffer.
    pub fn input_mut(&mut self) -> (r: &mut Vec<In>)
        ensures *r == old(self).input, final(self).input == *final(r), final(self).chain == old(self).chain,
    {
        &mut self.input
    }

    /// Read-only access to the input buffer.
    pub fn input(&self) -> (r: &[In])
        ensures r@ == self.input@,
    {
        self.input.as_slice()
    }

    /// Drain the input buffer, running each item through the chain in
    /// order. Afterwards the buffer is empty.
    pub fn run(&mut self, world: &mut World<V>)
        requires batch_pre(old(self).chain, old(self).input@, *old(world)),
        ensures
            final(self).input@.len() == 0,
            final(world)@.keys == old(world)@.keys,
            batch_rel(old(self).chain, old(self).input@, *old(world), final(self).chain, *final(world)),
    {
        let ghost items = self.input@;
        let mut rev: Vec<In> = Vec::new();
        while self.input.len() > 0
            invariant
                self.chain == old(self).chain,
                *world == *old(world),
                items == old(self).input@,
                self.input@.len() + rev@.len() == items.len(),
                forall|j: int| 0 <= j < self.input@.len() ==> self.input@[j] == items[j],
                forall|j: int| 0 <= j < rev@.len() ==> #[trigger] rev@[j] == items[items.len() - 1 - j],
            decreases self.input@.len(),
        {
            let x = self.input.pop().unwrap();
            rev.push(x);
        }
        let ghost c0 = self.chain;
        let ghost w0 = *world;
        assert(items.subrange(items.len() - rev@.len(), items.len() as int) =~= items);
        while rev.len() > 0
            invariant
                rev@.len() <= items.len(),
                forall|j: int| 0 <= j < rev@.len() ==> #[trigger] rev@[j] == items[items.len() - 1 - j],
                self.input@.len() == 0,
                c0 == old(self).chain,
                w0 == *old(world),
                world@.keys == w0@.keys,
                items == old(self).input@,
                batch_pre(self.chain, items.subrange(items.len() - rev@.len(), items.len() as int), *world),
                forall|c1: C, w1: World<V>|
                    batch_rel(self.chain, items.subrange(items.len() - rev@.len(), items.len() as int), *world, c1, w1)
                        ==> batch_rel(c0, items, w0, c1, w1),
            decreases rev@.len(),
        {
            let ghost k = items.len() - rev@.len();
            let ghost rest = items.subrange(k, items.len() as int);
            let ghost cb = self.chain;
            let ghost wb = *world;
            let x = rev.pop().unwrap();
            assert(rest[0] == x);
            let o = self.chain.call(world, x);
            proof {
                assert(rest.drop_first() =~= items.subrange(k + 1, items.len() as int));
                assert forall|c1: C, w1: World<V>|
                    batch_rel(self.chain, items.subrange(k + 1, items.len() as int), *world, c1, w1)
                        implies batch_rel(c0, items, w0, c1, w1) by {
                    assert(cb.rel(&self.chain, wb, rest[0], *world, o));
                    assert(batch_rel(cb, rest, wb, c1, w1));
                }
            }
        }
        proof {
            let e = items.subrange(items.len() as int, items.len() as int);
            assert(e =~= Seq::<In>::empty());
            assert(batch_rel(self.chain, e, *world, self.chain, *world));
        }
    }
}

/// The world after applying `f` to each item in order, starting at `w`.
pub open spec fn fold_world<V, In>(items: Seq<In>, w: WorldView<V>, f: spec_fn(WorldView<V>, In) -> WorldView<V>) -> WorldView<V>
    decreases items.len(),
{
    if items.len() == 0 { w } else { fold_world(items.drop_first(), f(w, items[0]), f) }
}

/// A batch over a chain whose every call leaves the chain as it was and
/// changes the world by `f` ends with the world folded over the items by
/// `f`.
pub proof fn lemma_batch_fold<V, In, Out, C: Step<V, In, Out>>(
    c: C,
    items: Seq<In>,
    w0: World<V>,
    c1: C,
    w1: World<V>,
    f: spec_fn(WorldView<V>, In) -> WorldView<V>,
)
    requires
        forall|cm: C, w: World<V>, x: In, wm: World<V>, o: Out| #[trigger] c.rel(&cm, w, x, wm, o)
            ==> cm == c && wm@ == f(w@, x),
        batch_rel(c, items, w0, c1, w1),
    ensures w1@ == fold_world(items, w0@, f), c1 == c,
    decreases items.len(),
{
    if items.len() > 0 {
        let (cm, wm, o) = choose|cm: C, wm: World<V>, o: Out|
            #[trigger] c.rel(&cm, w0, items[0], wm, o) && batch_rel(cm, items.drop_first(), wm, c1, w1);
        lemma_batch_fold(c, items.drop_first(), wm, c1, w1, f);
    }
}

/// A chain that accepts every input in every world satisfying `inv`, and
/// whose calls keep `inv` and leave the chain as it was, accepts any batch
/// from such a world.
pub proof fn lemma_batch_pre<V, In, Out, C: Step<V, In, Out>>(
    c: C,
    items: Seq<In>,
    w0: World<V>,
    inv: spec_fn(World<V>) -> bool,
)
    requires
        forall|w: World<V>, x: In| inv(w) ==> #[trigger] c.pre(w, x),
        forall|cm: C, w: World<V>, x: In, wm: World<V>, o: Out| inv(w) && #[trigger] c.rel(&cm, w, x, wm, o)
            ==> cm == c && inv(wm),
        inv(w0),
    ensures batch_pre(c, items, w0),
    decreases items.len(),
{
    if items.len() > 0 {
        assert forall|cm: C, wm: World<V>, o: Out| #[trigger] c.rel(&cm, w0, items[0], wm, o)
            implies batch_pre(cm, items.drop_first(), wm) by {
            lemma_batch_pre(c, items.drop_first(), wm, inv);
        }
    }
}

/// A chain that accepts every input, leaves the world as it was and
/// returns `f` of its input.
pub open spec fn pure_chain<V, In, Out, C: Step<V, In, Out>>(c: C, f: spec_fn(In) -> Out) -> bool {
    &&& forall|w: World<V>, x: In| #[trigger] c.pre(w, x)
    &&& forall|c1: C, w0: World<V>, x: In, w1: World<V>, o: Out|
        #[trigger] c.rel(&c1, w0, x, w1, o) ==> w1 == w0 && o == f(x)
}

/// A named step whose function accepts every input is a pure chain
/// computing that function.
pub proof fn lemma_named_pure_chain<V, In, Out, P: PureFn<In, Out>>(s: Named<P>)
    requires forall|x: In| #[trigger] P::pure_pre(x),
    ensures pure_chain::<V, In, Out, Named<P>>(s, |x: In| P::pure_spec(x)),
{
}

/// Composition law: a step appended to a pure chain gives a pure chain
/// computing the composition of the two functions.
pub proof fn lemma_then_pure_chain<V, In, M, Out, A: Step<V, In, M>, B: Step<V, M, Out>>(
    t: Then<A, B, M>,
    fa: spec_fn(In) -> M,
    fb: spec_fn(M) -> Out,
) -> (g: spec_fn(In) -> Out)
    requires
        pure_chain::<V, In, M, A>(t.a, fa),
        pure_chain::<V, M, Out, B>(t.b, fb),
    ensures
        g == (|x: In| fb(fa(x))),
        pure_chain::<V, In, Out, Then<A, B, M>>(t, g),
{
    let g = |x: In| fb(fa(x));
    assert forall|w: World<V>, x: In| #[trigger] t.pre(w, x) by {
        assert forall|a1: A, w1: World<V>, m: M| #[trigger] t.a.rel(&a1, w, x, w1, m) implies t.b.pre(w1, m) by {
            assert(t.b.pre(w1, m));
        }
        assert(t.a.pre(w, x));
    }
    assert forall|c1: Then<A, B, M>, w0: World<V>, x: In, w2: World<V>, o: Out|
        #[trigger] t.rel(&c1, w0, x, w2, o) implies w2 == w0 && o == fb(fa(x)) by {
        let (w1, m) = choose|w1: World<V>, m: M| #[trigger] t.a.rel(&c1.a, w0, x, w1, m) && t.b.rel(&c1.b, w1, m, w2, o);
        assert(w1 == w0 && m == fa(x));
        assert(w2 == w1 && o == fb(m));
    }
    g
}

/// Pre-resolve a step for manual dispatch: the step is returned as is,
/// ready to be called with [`Step::call`].
pub fn resolve_step<V, In, Out, S: Step<V, In, Out>>(s: S) -> (r: S)
    ensures r == s,
{
    s
}

/// A batch over a chain with state: when every call, from a chain state
/// and world satisfying `inv` for the items still to come, changes the
/// world by `f` and keeps `inv` for the rest, the batch ends with the world
/// folded over the items by `f`.
pub proof fn lemma_batch_fold_inv<V, In, Out, C: Step<V, In, Out>>(
    c: C,
    items: Seq<In>,
    w0: World<V>,
    c1: C,
    w1: World<V>,
    f: spec_fn(WorldView<V>, In) -> WorldView<V>,
    inv: spec_fn(C, Seq<In>, World<V>) -> bool,
)
    requires
        forall|c: C, rest: Seq<In>, w: World<V>, cm: C, wm: World<V>, o: Out|
            rest.len() > 0 && inv(c, rest, w) && #[trigger] c.rel(&cm, w, rest[0], wm, o)
                ==> wm@ == f(w@, rest[0]) && inv(cm, rest.drop_first(), wm),
        inv(c, items, w0),
        batch_rel(c, items, w0, c1, w1),
    ensures w1@ == fold_world(items, w0@, f),
    decreases items.len(),
{
    if items.len() > 0 {
        let (cm, wm, o) = choose|cm: C, wm: World<V>, o: Out|
            #[trigger] c.rel(&cm, w0, items[0], wm, o) && batch_rel(cm, items.drop_first(), wm, c1, w1);
        lemma_batch_fold_inv(cm, items.drop_first(), wm, c1, w1, f, inv);
    }
}

/// A chain with state accepts every item of a batch when `inv` (over the
/// chain state, the items still to come and the world) implies the
/// precondition for the next item and every call keeps `inv`.
pub proof fn lemma_batch_pre_inv<V, In, Out, C: Step<V, In, Out>>(
    c: C,
    items: Seq<In>,
    w0: World<V>,
    inv: spec_fn(C, Seq<In>, World<V>) -> bool,
)
    requires
        forall|c: C, rest: Seq<In>, w: World<V>|
            rest.len() > 0 && inv(c, rest, w) ==> #[trigger] c.pre(w, rest[0]),
        forall|c: C, rest: Seq<In>, w: World<V>, cm: C, wm: World<V>, o: Out|
            rest.len() > 0 && inv(c, rest, w) && #[trigger] c.rel(&cm, w, rest[0], wm, o)
                ==> inv(cm, rest.drop_first(), wm),
        inv(c, items, w0),
    ensures batch_pre(c, items, w0),
    decreases items.len(),
{
    if items.len() > 0 {
        assert(c.pre(w0, items[0]));
        assert forall|cm: C, wm: World<V>, o: Out| #[trigger] c.rel(&cm, w0, items[0], wm, o)
            implies batch_pre(cm, items.drop_first(), wm) by {
            lemma_batch_pre_inv(cm, items.drop_first(), wm, inv);
        }
    }
}

/// Pre-resolve a by-reference step for manual dispatch: the step is
/// returned as is, ready to be called with [`RefStep::call`].
pub fn resolve_ref_step<V, In, Out, S: RefStep<V, In, Out>>(s: S) -> (r: S)
    ensures r == s,
{
    s
}

/// Pre-resolve a producer (a step with unit input, as taken by `and`,
/// `or`, `on_none` and the defaults) for manual dispatch.
pub fn resolve_producer<V, Out, S: Step<V, (), Out>>(s: S) -> (r: S)
    ensures r == s,
{
    s
}

/// Pre-resolve a step with private state for manual dispatch: a scan
/// starting at `initial`.
pub fn resolve_scan_step<A, F>(initial: A, f: F) -> (r: crate::step::Scan<A, F>)
    ensures r.acc == initial, r.f == f,
{
    crate::step::Scan { acc: initial, f }
}

/// Pre-resolve a by-reference step with private state for manual
/// dispatch: a scan over borrowed inputs starting at `initial`.
pub fn resolve_ref_scan_step<A, F>(initial: A, f: F) -> (r: crate::step::RefScan<A, F>)
    ensures r.acc == initial, r.f == f,
{
    crate::step::RefScan { acc: initial, f }
}

} // verus!
