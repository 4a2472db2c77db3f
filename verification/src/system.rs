//! Reconciliation systems with boolean propagation.
//!
//! A [`System`] runs once per scheduler pass and returns `true` when its
//! outputs changed, so that downstream systems should run.
use vstd::prelude::*;
use crate::world::World;
use crate::step::{Step, Pure};

verus! {

/// Object-safe dispatch trait for reconciliation systems.
pub trait System<V> {
    /// What must hold of the world for a run.
    spec fn s_pre(&self, w: World<V>) -> bool;

    /// How the world and the result relate across a run.
    spec fn s_rel(&self, w0: World<V>, w1: World<V>, r: bool) -> bool;

    /// What the system is after a run from `w0` to `w1` that returned `r`:
    /// `next_pre` and `next_rel` are its [`System::s_pre`] and
    /// [`System::s_rel`] then. The system after a run is this one advanced
    /// by its own step, never another.
    spec fn s_next(
        &self,
        w0: World<V>,
        w1: World<V>,
        r: bool,
        next_pre: spec_fn(World<V>) -> bool,
        next_rel: spec_fn(World<V>, World<V>, bool) -> bool,
    ) -> bool;

    /// Run the system; `true` means downstream systems should run.
    fn run(&mut self, world: &mut World<V>) -> (r: bool)
        requires old(self).s_pre(*old(world)),
        ensures
            old(self).s_rel(*old(world), *final(world), r),
            old(self).s_next(
                *old(world),
                *final(world),
                r,
                |w: World<V>| final(self).s_pre(w),
                |a: World<V>, b: World<V>, c: bool| final(self).s_rel(a, b, c),
            ),
            final(world)@.keys == old(world)@.keys,
            final(world)@.seq == old(world)@.seq;

    /// Diagnostic name.
    fn name(&self) -> &'static str;
}

/// A system built from a `bool`-returning step with unit input.
pub struct SystemFn<S> {
    /// The step run per pass.
    pub step: S,
    /// Diagnostic name.
    pub name: &'static str,
}

/// Convert a `bool`-returning step into a system.
pub fn into_system<S>(step: S) -> (r: SystemFn<S>)
    ensures r.step == step, r.name == "system",
{
    SystemFn { step, name: "system" }
}

/// Convert a `bool`-returning step into a system named `name`.
pub fn into_system_named<S>(step: S, name: &'static str) -> (r: SystemFn<S>)
    ensures r.step == step, r.name == name,
{
    SystemFn { step, name }
}

impl<V, S: Step<V, (), bool>> System<V> for SystemFn<S> {
    open spec fn s_pre(&self, w: World<V>) -> bool {
        self.step.pre(w, ())
    }

    open spec fn s_rel(&self, w0: World<V>, w1: World<V>, r: bool) -> bool {
        exists|s1: S| self.step.rel(&s1, w0, (), w1, r)
    }

    open spec fn s_next(
        &self,
        w0: World<V>,
        w1: World<V>,
        r: bool,
        next_pre: spec_fn(World<V>) -> bool,
        next_rel: spec_fn(World<V>, World<V>, bool) -> bool,
    ) -> bool {
        exists|s1: S| {
            &&& #[trigger] self.step.rel(&s1, w0, (), w1, r)
            &&& next_pre == |w: World<V>| s1.pre(w, ())
            &&& next_rel == |a: World<V>, b: World<V>, c: bool| exists|s2: S| s1.rel(&s2, a, (), b, c)
        }
    }

    fn run(&mut self, world: &mut World<V>) -> (r: bool) {
        let r = self.step.call(world, ());
        proof {
            let s1 = self.step;
            assert(old(self).step.rel(&s1, *old(world), (), *world, r));
            assert((|w: World<V>| self.s_pre(w)) =~= (|w: World<V>| s1.pre(w, ())));
            assert((|a: World<V>, b: World<V>, c: bool| self.s_rel(a, b, c))
                =~= (|a: World<V>, b: World<V>, c: bool| exists|s2: S| s1.rel(&s2, a, (), b, c)));
        }
        r
    }

    fn name(&self) -> (r: &'static str)
        ensures r == self.name,
    {
        self.name
    }
}

/// A system built from a unit-returning step; it always propagates.
pub struct VoidSystemFn<S> {
    /// The step run per pass.
    pub step: S,
    /// Diagnostic name.
    pub name: &'static str,
}

/// Convert a unit-returning step into a system that always returns `true`.
pub fn into_void_system<S>(step: S) -> (r: VoidSystemFn<S>)
    ensures r.step == step, r.name == "system",
{
    VoidSystemFn { step, name: "system" }
}

/// Convert a unit-returning step into a system named `name`.
pub fn into_void_system_named<S>(step: S, name: &'static str) -> (r: VoidSystemFn<S>)
    ensures r.step == step, r.name == name,
{
    VoidSystemFn { step, name }
}

impl<V, S: Step<V, (), ()>> System<V> for VoidSystemFn<S> {
    open spec fn s_pre(&self, w: World<V>) -> bool {
        self.step.pre(w, ())
    }

    open spec fn s_rel(&self, w0: World<V>, w1: World<V>, r: bool) -> bool {
        r && exists|s1: S| self.step.rel(&s1, w0, (), w1, ())
    }

    open spec fn s_next(
        &self,
        w0: World<V>,
        w1: World<V>,
        r: bool,
        next_pre: spec_fn(World<V>) -> bool,
        next_rel: spec_fn(World<V>, World<V>, bool) -> bool,
    ) -> bool {
        r && exists|s1: S| {
            &&& #[trigger] self.step.rel(&s1, w0, (), w1, ())
            &&& next_pre == |w: World<V>| s1.pre(w, ())
            &&& next_rel == |a: World<V>, b: World<V>, c: bool| c && exists|s2: S| s1.rel(&s2, a, (), b, ())
        }
    }

    fn run(&mut self, world: &mut World<V>) -> (r: bool) {
        self.step.call(world, ());
        proof {
            let s1 = self.step;
            assert(old(self).step.rel(&s1, *old(world), (), *world, ()));
            assert((|w: World<V>| self.s_pre(w)) =~= (|w: World<V>| s1.pre(w, ())));
            assert((|a: World<V>, b: World<V>, c: bool| self.s_rel(a, b, c))
                =~= (|a: World<V>, b: World<V>, c: bool| c && exists|s2: S| s1.rel(&s2, a, (), b, ())));
        }
        true
    }

    fn name(&self) -> (r: &'static str)
        ensures r == self.name,
    {
        self.name
    }
}

/// Conversion of a step into a system: a `bool`-returning step decides
/// whether to propagate (`Marker = bool`), a unit-returning step always
/// propagates (`Marker = ()`).
pub trait IntoSystem<V, Marker> {
    /// The system built.
    type System: System<V>;

    /// Build the system, with the default name.
    fn into_system(self) -> Self::System;
}

impl<V, S: Step<V, (), bool>> IntoSystem<V, bool> for S {
    type System = SystemFn<S>;

    fn into_system(self) -> (r: SystemFn<S>)
        ensures r.step == self, r.name == "system",
    {
        SystemFn { step: self, name: "system" }
    }
}

impl<V, S: Step<V, (), ()>> IntoSystem<V, ()> for S {
    type System = VoidSystemFn<S>;

    fn into_system(self) -> (r: VoidSystemFn<S>)
        ensures r.step == self, r.name == "system",
    {
        VoidSystemFn { step: self, name: "system" }
    }
}

/// A boxed system, the element type of the scheduler's system list.
#[verifier::reject_recursive_types(V)]
pub struct BoxedSystem<V>(pub Box<dyn System<V>>);

/// `after` is `before` advanced by its own run from `w0` to `w1` that
/// returned `r`: the contract of `after` is the one that `before` promises
/// for the system after such a run.
pub open spec fn advanced<V>(before: BoxedSystem<V>, after: BoxedSystem<V>, w0: World<V>, w1: World<V>, r: bool) -> bool {
    before.0.s_next(w0, w1, r, |w: World<V>| after.0.s_pre(w), |a: World<V>, b: World<V>, c: bool| after.0.s_rel(a, b, c))
}

/// Every run leaves `b` with the contract it had: what it needs of the
/// world and what it does to it stay the same.
pub open spec fn keeps_contract<V>(b: BoxedSystem<V>) -> bool {
    forall|w0: World<V>, w1: World<V>, r: bool, np: spec_fn(World<V>) -> bool, nr: spec_fn(World<V>, World<V>, bool) -> bool|
        #[trigger] b.0.s_next(w0, w1, r, np, nr) ==> {
            &&& np == |w: World<V>| b.0.s_pre(w)
            &&& nr == |a: World<V>, c: World<V>, x: bool| b.0.s_rel(a, c, x)
        }
}

/// `b` never propagates: every run of it returns `false`.
pub open spec fn silent<V>(b: BoxedSystem<V>) -> bool {
    forall|w0: World<V>, w1: World<V>, r: bool| #[trigger] b.0.s_rel(w0, w1, r) ==> !r
}

/// A system built from a pure `bool`-returning function is the same system
/// after every run: its contract never changes.
pub proof fn lemma_pure_system_keeps_contract<V, F: Fn(()) -> bool>(
    s: SystemFn<Pure<F>>,
    w0: World<V>,
    w1: World<V>,
    r: bool,
    np: spec_fn(World<V>) -> bool,
    nr: spec_fn(World<V>, World<V>, bool) -> bool,
)
    requires <SystemFn<Pure<F>> as System<V>>::s_next(&s, w0, w1, r, np, nr),
    ensures
        np == |w: World<V>| <SystemFn<Pure<F>> as System<V>>::s_pre(&s, w),
        nr == |a: World<V>, c: World<V>, x: bool| <SystemFn<Pure<F>> as System<V>>::s_rel(&s, a, c, x),
{
    let s1 = choose|s1: Pure<F>| {
        &&& #[trigger] <Pure<F> as Step<V, (), bool>>::rel(&s.step, &s1, w0, (), w1, r)
        &&& np == |w: World<V>| <Pure<F> as Step<V, (), bool>>::pre(&s1, w, ())
        &&& nr == |a: World<V>, b: World<V>, c: bool| exists|s2: Pure<F>| <Pure<F> as Step<V, (), bool>>::rel(&s1, &s2, a, (), b, c)
    };
    assert(s1 == s.step);
    assert(np =~= |w: World<V>| <SystemFn<Pure<F>> as System<V>>::s_pre(&s, w));
    assert(nr =~= |a: World<V>, c: World<V>, x: bool| <SystemFn<Pure<F>> as System<V>>::s_rel(&s, a, c, x));
}

/// `system` in a box, as [`BoxedSystem::new`] builds it.
pub open spec fn boxed<V, S: System<V> + 'static>(system: S) -> BoxedSystem<V> {
    BoxedSystem(Box::new(system))
}

impl<V> BoxedSystem<V> {
    /// Box a system.
    pub fn new<S: System<V> + 'static>(system: S) -> (r: BoxedSystem<V>)
        ensures r == boxed(system),
    {
        BoxedSystem(Box::new(system))
    }
}

} // verus!
