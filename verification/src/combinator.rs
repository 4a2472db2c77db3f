//! Fan-out combinators: one event, several by-reference handlers.
//!
//! [`FanOut`] holds a fixed tuple of handlers; [`Broadcast`] a growable
//! list. Each handler receives the event by reference, in order.
use vstd::prelude::*;
use crate::world::World;
use crate::handler::{Handler, RefHandler};

verus! {

/// Static fan-out over a tuple of by-reference handlers.
pub struct FanOut<T>(pub T);

impl<V, E, H0: RefHandler<V, E>, H1: RefHandler<V, E>> Handler<V, E> for FanOut<(H0, H1)> {
    open spec fn h_pre(&self, w0: World<V>, e: E) -> bool {
        self.0.0.h_pre(w0, e) && forall|w1: World<V>| #[trigger] self.0.0.h_rel(w0, e, w1) ==> (self.0.1.h_pre(w1, e))
    }

    open spec fn h_rel(&self, w0: World<V>, e: E, w1_final: World<V>) -> bool {
        exists|w1: World<V>| #[trigger] self.0.0.h_rel(w0, e, w1) && self.0.1.h_rel(w1, e, w1_final)
    }

    fn run(&mut self, world: &mut World<V>, event: E) {
        let ghost e = event;
        self.0.0.run(world, &event);
        let ghost m1 = *world;
        self.0.1.run(world, &event);
        assert(old(self).0.0.h_rel(*old(world), e, m1));
    }

    open spec fn h_name(&self) -> &'static str {
        "FanOut"
    }

    fn name(&self) -> &'static str {
        "FanOut"
    }
}

impl<V, E, H0: RefHandler<V, E>, H1: RefHandler<V, E>, H2: RefHandler<V, E>> Handler<V, E> for FanOut<(H0, H1, H2)> {
    open spec fn h_pre(&self, w0: World<V>, e: E) -> bool {
        self.0.0.h_pre(w0, e) && forall|w1: World<V>| #[trigger] self.0.0.h_rel(w0, e, w1) ==> (self.0.1.h_pre(w1, e) && forall|w2: World<V>| #[trigger] self.0.1.h_rel(w1, e, w2) ==> (self.0.2.h_pre(w2, e)))
    }

    open spec fn h_rel(&self, w0: World<V>, e: E, w1_final: World<V>) -> bool {
        exists|w1: World<V>, w2: World<V>| #[trigger] self.0.0.h_rel(w0, e, w1) && #[trigger] self.0.1.h_rel(w1, e, w2) && self.0.2.h_rel(w2, e, w1_final)
    }

    fn run(&mut self, world: &mut World<V>, event: E) {
        let ghost e = event;
        self.0.0.run(world, &event);
        let ghost m1 = *world;
        self.0.1.run(world, &event);
        let ghost m2 = *world;
        self.0.2.run(world, &event);
        assert(old(self).0.0.h_rel(*old(world), e, m1));
        assert(old(self).0.1.h_rel(m1, e, m2));
    }

    open spec fn h_name(&self) -> &'static str {
        "FanOut"
    }

    fn name(&self) -> &'static str {
        "FanOut"
    }
}

impl<V, E, H0: RefHandler<V, E>, H1: RefHandler<V, E>, H2: RefHandler<V, E>, H3: RefHandler<V, E>> Handler<V, E> for FanOut<(H0, H1, H2, H3)> {
    open spec fn h_pre(&self, w0: World<V>, e: E) -> bool {
        self.0.0.h_pre(w0, e) && forall|w1: World<V>| #[trigger] self.0.0.h_rel(w0, e, w1) ==> (self.0.1.h_pre(w1, e) && forall|w2: World<V>| #[trigger] self.0.1.h_rel(w1, e, w2) ==> (self.0.2.h_pre(w2, e) && forall|w3: World<V>| #[trigger] self.0.2.h_rel(w2, e, w3) ==> (self.0.3.h_pre(w3, e))))
    }

    open spec fn h_rel(&self, w0: World<V>, e: E, w1_final: World<V>) -> bool {
        exists|w1: World<V>, w2: World<V>, w3: World<V>| #[trigger] self.0.0.h_rel(w0, e, w1) && #[trigger] self.0.1.h_rel(w1, e, w2) && #[trigger] self.0.2.h_rel(w2, e, w3) && self.0.3.h_rel(w3, e, w1_final)
    }

    fn run(&mut self, world: &mut World<V>, event: E) {
        let ghost e = event;
        self.0.0.run(world, &event);
        let ghost m1 = *world;
        self.0.1.run(world, &event);
        let ghost m2 = *world;
        self.0.2.run(world, &event);
        let ghost m3 = *world;
        self.0.3.run(world, &event);
        assert(old(self).0.0.h_rel(*old(world), e, m1));
        assert(old(self).0.1.h_rel(m1, e, m2));
        assert(old(self).0.2.h_rel(m2, e, m3));
    }

    open spec fn h_name(&self) -> &'static str {
        "FanOut"
    }

    fn name(&self) -> &'static str {
        "FanOut"
    }
}

impl<V, E, H0: RefHandler<V, E>, H1: RefHandler<V, E>, H2: RefHandler<V, E>, H3: RefHandler<V, E>, H4: RefHandler<V, E>> Handler<V, E> for FanOut<(H0, H1, H2, H3, H4)> {
    open spec fn h_pre(&self, w0: World<V>, e: E) -> bool {
        self.0.0.h_pre(w0, e) && forall|w1: World<V>| #[trigger] self.0.0.h_rel(w0, e, w1) ==> (self.0.1.h_pre(w1, e) && forall|w2: World<V>| #[trigger] self.0.1.h_rel(w1, e, w2) ==> (self.0.2.h_pre(w2, e) && forall|w3: World<V>| #[trigger] self.0.2.h_rel(w2, e, w3) ==> (self.0.3.h_pre(w3, e) && forall|w4: World<V>| #[trigger] self.0.3.h_rel(w3, e, w4) ==> (self.0.4.h_pre(w4, e)))))
    }

    open spec fn h_rel(&self, w0: World<V>, e: E, w1_final: World<V>) -> bool {
        exists|w1: World<V>, w2: World<V>, w3: World<V>, w4: World<V>| #[trigger] self.0.0.h_rel(w0, e, w1) && #[trigger] self.0.1.h_rel(w1, e, w2) && #[trigger] self.0.2.h_rel(w2, e, w3) && #[trigger] self.0.3.h_rel(w3, e, w4) && self.0.4.h_rel(w4, e, w1_final)
    }

    fn run(&mut self, world: &mut World<V>, event: E) {
        let ghost e = event;
        self.0.0.run(world, &event);
        let ghost m1 = *world;
        self.0.1.run(world, &event);
        let ghost m2 = *world;
        self.0.2.run(world, &event);
        let ghost m3 = *world;
        self.0.3.run(world, &event);
        let ghost m4 = *world;
        self.0.4.run(world, &event);
        assert(old(self).0.0.h_rel(*old(world), e, m1));
        assert(old(self).0.1.h_rel(m1, e, m2));
        assert(old(self).0.2.h_rel(m2, e, m3));
        assert(old(self).0.3.h_rel(m3, e, m4));
    }

    open spec fn h_name(&self) -> &'static str {
        "FanOut"
    }

    fn name(&self) -> &'static str {
        "FanOut"
    }
}

impl<V, E, H0: RefHandler<V, E>, H1: RefHandler<V, E>, H2: RefHandler<V, E>, H3: RefHandler<V, E>, H4: RefHandler<V, E>, H5: RefHandler<V, E>> Handler<V, E> for FanOut<(H0, H1, H2, H3, H4, H5)> {
    open spec fn h_pre(&self, w0: World<V>, e: E) -> bool {
        self.0.0.h_pre(w0, e) && forall|w1: World<V>| #[trigger] self.0.0.h_rel(w0, e, w1) ==> (self.0.1.h_pre(w1, e) && forall|w2: World<V>| #[trigger] self.0.1.h_rel(w1, e, w2) ==> (self.0.2.h_pre(w2, e) && forall|w3: World<V>| #[trigger] self.0.2.h_rel(w2, e, w3) ==> (self.0.3.h_pre(w3, e) && forall|w4: World<V>| #[trigger] self.0.3.h_rel(w3, e, w4) ==> (self.0.4.h_pre(w4, e) && forall|w5: World<V>| #[trigger] self.0.4.h_rel(w4, e, w5) ==> (self.0.5.h_pre(w5, e))))))
    }

    open spec fn h_rel(&self, w0: World<V>, e: E, w1_final: World<V>) -> bool {
        exists|w1: World<V>, w2: World<V>, w3: World<V>, w4: World<V>, w5: World<V>| #[trigger] self.0.0.h_rel(w0, e, w1) && #[trigger] self.0.1.h_rel(w1, e, w2) && #[trigger] self.0.2.h_rel(w2, e, w3) && #[trigger] self.0.3.h_rel(w3, e, w4) && #[trigger] self.0.4.h_rel(w4, e, w5) && self.0.5.h_rel(w5, e, w1_final)
    }

    fn run(&mut self, world: &mut World<V>, event: E) {
        let ghost e = event;
        self.0.0.run(world, &event);
        let ghost m1 = *world;
        self.0.1.run(world, &event);
        let ghost m2 = *world;
        self.0.2.run(world, &event);
        let ghost m3 = *world;
        self.0.3.run(world, &event);
        let ghost m4 = *world;
        self.0.4.run(world, &event);
        let ghost m5 = *world;
        self.0.5.run(world, &event);
        assert(old(self).0.0.h_rel(*old(world), e, m1));
        assert(old(self).0.1.h_rel(m1, e, m2));
        assert(old(self).0.2.h_rel(m2, e, m3));
        assert(old(self).0.3.h_rel(m3, e, m4));
        assert(old(self).0.4.h_rel(m4, e, m5));
    }

    open spec fn h_name(&self) -> &'static str {
        "FanOut"
    }

    fn name(&self) -> &'static str {
        "FanOut"
    }
}

impl<V, E, H0: RefHandler<V, E>, H1: RefHandler<V, E>, H2: RefHandler<V, E>, H3: RefHandler<V, E>, H4: RefHandler<V, E>, H5: RefHandler<V, E>, H6: RefHandler<V, E>> Handler<V, E> for FanOut<(H0, H1, H2, H3, H4, H5, H6)> {
    open spec fn h_pre(&self, w0: World<V>, e: E) -> bool {
        self.0.0.h_pre(w0, e) && forall|w1: World<V>| #[trigger] self.0.0.h_rel(w0, e, w1) ==> (self.0.1.h_pre(w1, e) && forall|w2: World<V>| #[trigger] self.0.1.h_rel(w1, e, w2) ==> (self.0.2.h_pre(w2, e) && forall|w3: World<V>| #[trigger] self.0.2.h_rel(w2, e, w3) ==> (self.0.3.h_pre(w3, e) && forall|w4: World<V>| #[trigger] self.0.3.h_rel(w3, e, w4) ==> (self.0.4.h_pre(w4, e) && forall|w5: World<V>| #[trigger] self.0.4.h_rel(w4, e, w5) ==> (self.0.5.h_pre(w5, e) && forall|w6: World<V>| #[trigger] self.0.5.h_rel(w5, e, w6) ==> (self.0.6.h_pre(w6, e)))))))
    }

    open spec fn h_rel(&self, w0: World<V>, e: E, w1_final: World<V>) -> bool {
        exists|w1: World<V>, w2: World<V>, w3: World<V>, w4: World<V>, w5: World<V>, w6: World<V>| #[trigger] self.0.0.h_rel(w0, e, w1) && #[trigger] self.0.1.h_rel(w1, e, w2) && #[trigger] self.0.2.h_rel(w2, e, w3) && #[trigger] self.0.3.h_rel(w3, e, w4) && #[trigger] self.0.4.h_rel(w4, e, w5) && #[trigger] self.0.5.h_rel(w5, e, w6) && self.0.6.h_rel(w6, e, w1_final)
    }

    fn run(&mut self, world: &mut World<V>, event: E) {
        let ghost e = event;
        self.0.0.run(world, &event);
        let ghost m1 = *world;
        self.0.1.run(world, &event);
        let ghost m2 = *world;
        self.0.2.run(world, &event);
        let ghost m3 = *world;
        self.0.3.run(world, &event);
        let ghost m4 = *world;
        self.0.4.run(world, &event);
        let ghost m5 = *world;
        self.0.5.run(world, &event);
        let ghost m6 = *world;
        self.0.6.run(world, &event);
        assert(old(self).0.0.h_rel(*old(world), e, m1));
        assert(old(self).0.1.h_rel(m1, e, m2));
        assert(old(self).0.2.h_rel(m2, e, m3));
        assert(old(self).0.3.h_rel(m3, e, m4));
        assert(old(self).0.4.h_rel(m4, e, m5));
        assert(old(self).0.5.h_rel(m5, e, m6));
    }

    open spec fn h_name(&self) -> &'static str {
        "FanOut"
    }

    fn name(&self) -> &'static str {
        "FanOut"
    }
}

impl<V, E, H0: RefHandler<V, E>, H1: RefHandler<V, E>, H2: RefHandler<V, E>, H3: RefHandler<V, E>, H4: RefHandler<V, E>, H5: RefHandler<V, E>, H6: RefHandler<V, E>, H7: RefHandler<V, E>> Handler<V, E> for FanOut<(H0, H1, H2, H3, H4, H5, H6, H7)> {
    open spec fn h_pre(&self, w0: World<V>, e: E) -> bool {
        self.0.0.h_pre(w0, e) && forall|w1: World<V>| #[trigger] self.0.0.h_rel(w0, e, w1) ==> (self.0.1.h_pre(w1, e) && forall|w2: World<V>| #[trigger] self.0.1.h_rel(w1, e, w2) ==> (self.0.2.h_pre(w2, e) && forall|w3: World<V>| #[trigger] self.0.2.h_rel(w2, e, w3) ==> (self.0.3.h_pre(w3, e) && forall|w4: World<V>| #[trigger] self.0.3.h_rel(w3, e, w4) ==> (self.0.4.h_pre(w4, e) && forall|w5: World<V>| #[trigger] self.0.4.h_rel(w4, e, w5) ==> (self.0.5.h_pre(w5, e) && forall|w6: World<V>| #[trigger] self.0.5.h_rel(w5, e, w6) ==> (self.0.6.h_pre(w6, e) && forall|w7: World<V>| #[trigger] self.0.6.h_rel(w6, e, w7) ==> (self.0.7.h_pre(w7, e))))))))
    }

    open spec fn h_rel(&self, w0: World<V>, e: E, w1_final: World<V>) -> bool {
        exists|w1: World<V>, w2: World<V>, w3: World<V>, w4: World<V>, w5: World<V>, w6: World<V>, w7: World<V>| #[trigger] self.0.0.h_rel(w0, e, w1) && #[trigger] self.0.1.h_rel(w1, e, w2) && #[trigger] self.0.2.h_rel(w2, e, w3) && #[trigger] self.0.3.h_rel(w3, e, w4) && #[trigger] self.0.4.h_rel(w4, e, w5) && #[trigger] self.0.5.h_rel(w5, e, w6) && #[trigger] self.0.6.h_rel(w6, e, w7) && self.0.7.h_rel(w7, e, w1_final)
    }

    fn run(&mut self, world: &mut World<V>, event: E) {
        let ghost e = event;
        self.0.0.run(world, &event);
        let ghost m1 = *world;
        self.0.1.run(world, &event);
        let ghost m2 = *world;
        self.0.2.run(world, &event);
        let ghost m3 = *world;
        self.0.3.run(world, &event);
        let ghost m4 = *world;
        self.0.4.run(world, &event);
        let ghost m5 = *world;
        self.0.5.run(world, &event);
        let ghost m6 = *world;
        self.0.6.run(world, &event);
        let ghost m7 = *world;
        self.0.7.run(world, &event);
        assert(old(self).0.0.h_rel(*old(world), e, m1));
        assert(old(self).0.1.h_rel(m1, e, m2));
        assert(old(self).0.2.h_rel(m2, e, m3));
        assert(old(self).0.3.h_rel(m3, e, m4));
        assert(old(self).0.4.h_rel(m4, e, m5));
        assert(old(self).0.5.h_rel(m5, e, m6));
        assert(old(self).0.6.h_rel(m6, e, m7));
    }

    open spec fn h_name(&self) -> &'static str {
        "FanOut"
    }

    fn name(&self) -> &'static str {
        "FanOut"
    }
}

/// A boxed by-reference handler, the element type of a [`Broadcast`].
#[verifier::reject_recursive_types(V)]
#[verifier::reject_recursive_types(E)]
pub struct BoxedRefHandler<V, E>(pub Box<dyn RefHandler<V, E>>);

/// `h` in a box, as [`BoxedRefHandler::new`] builds it.
pub open spec fn boxed_ref<V, E, H: RefHandler<V, E> + 'static>(h: H) -> BoxedRefHandler<V, E> {
    BoxedRefHandler(Box::new(h))
}

impl<V, E> BoxedRefHandler<V, E> {
    /// Box a by-reference handler.
    pub fn new<H: RefHandler<V, E> + 'static>(h: H) -> (r: BoxedRefHandler<V, E>)
        ensures r == boxed_ref(h),
    {
        BoxedRefHandler(Box::new(h))
    }
}

/// Dynamic fan-out: every handler added receives each event by
/// reference, in the order added.
#[verifier::reject_recursive_types(V)]
#[verifier::reject_recursive_types(E)]
pub struct Broadcast<V, E> {
    handlers: Vec<BoxedRefHandler<V, E>>,
}

/// The handlers `hs` run in order on `e` take the world from `w0` to `w1`:
/// some chain of intermediate worlds links their relations.
pub open spec fn broadcast_chain<V, E>(hs: Seq<BoxedRefHandler<V, E>>, e: E, w0: World<V>, w1: World<V>) -> bool {
    exists|ws: Seq<World<V>>| {
        &&& ws.len() == hs.len() + 1
        &&& ws[0] == w0
        &&& ws[hs.len() as int] == w1
        &&& forall|i: int| 0 <= i < hs.len() ==> #[trigger] hs[i].0.h_rel(ws[i], e, ws[i + 1])
    }
}

/// `after` is `before` advanced by its own run on `e` from `w0` to `w1`:
/// the contract of `after` is the one that `before` promises for the
/// handler after such a run.
pub open spec fn ref_advanced<V, E>(
    before: BoxedRefHandler<V, E>,
    after: BoxedRefHandler<V, E>,
    w0: World<V>,
    e: E,
    w1: World<V>,
) -> bool {
    before.0.h_next(w0, e, w1, |w: World<V>, x: E| after.0.h_pre(w, x), |a: World<V>, x: E, b: World<V>| after.0.h_rel(a, x, b))
}

/// Running the handlers `before` in order on `e` takes the world from `w0`
/// to `w1` and leaves the handlers `after`: as many as before, each the
/// one that was at its place, advanced by its own run along a chain of
/// worlds.
pub open spec fn broadcast_step<V, E>(
    before: Seq<BoxedRefHandler<V, E>>,
    after: Seq<BoxedRefHandler<V, E>>,
    e: E,
    w0: World<V>,
    w1: World<V>,
) -> bool {
    &&& after.len() == before.len()
    &&& exists|ws: Seq<World<V>>| {
        &&& ws.len() == before.len() + 1
        &&& ws[0] == w0
        &&& ws[before.len() as int] == w1
        &&& forall|i: int| 0 <= i < before.len() ==> #[trigger] before[i].0.h_rel(ws[i], e, ws[i + 1])
            && ref_advanced(before[i], after[i], ws[i], e, ws[i + 1])
    }
}

/// Every run leaves `h` with the contract it had: what it needs of the
/// world and the event, and what it does to the world, stay the same.
pub open spec fn ref_keeps_contract<V, E>(h: BoxedRefHandler<V, E>) -> bool {
    forall|w0: World<V>, e: E, w1: World<V>, np: spec_fn(World<V>, E) -> bool, nr: spec_fn(World<V>, E, World<V>) -> bool|
        #[trigger] h.0.h_next(w0, e, w1, np, nr) ==> {
            &&& np == |w: World<V>, x: E| h.0.h_pre(w, x)
            &&& nr == |a: World<V>, x: E, b: World<V>| h.0.h_rel(a, x, b)
        }
}

/// A run of a broadcast keeps its handlers: as many as before, and each
/// the one that was at its place, advanced by its own run (see
/// [`ref_advanced`]), so every handler added receives every later event.
pub proof fn lemma_broadcast_keeps_handlers<V, E>(
    before: Seq<BoxedRefHandler<V, E>>,
    after: Seq<BoxedRefHandler<V, E>>,
    e: E,
    w0: World<V>,
    w1: World<V>,
    i: int,
)
    requires
        broadcast_step(before, after, e, w0, w1),
        0 <= i < before.len(),
    ensures
        after.len() == before.len(),
        exists|x: World<V>, y: World<V>| #[trigger] ref_advanced(before[i], after[i], x, e, y),
{
    let ws = choose|ws: Seq<World<V>>| {
        &&& ws.len() == before.len() + 1
        &&& ws[0] == w0
        &&& ws[before.len() as int] == w1
        &&& forall|j: int| 0 <= j < before.len() ==> #[trigger] before[j].0.h_rel(ws[j], e, ws[j + 1])
            && ref_advanced(before[j], after[j], ws[j], e, ws[j + 1])
    };
    assert(before[i].0.h_rel(ws[i], e, ws[i + 1]));
    assert(ref_advanced(before[i], after[i], ws[i], e, ws[i + 1]));
}

/// When every handler keeps its contract across runs, a run of the
/// broadcast leaves it with the contract it had: each handler needs and
/// does what it did, so the next event goes through all of them the same
/// way as this one.
pub proof fn lemma_broadcast_keeps_contract<V, E>(
    before: Seq<BoxedRefHandler<V, E>>,
    after: Seq<BoxedRefHandler<V, E>>,
    e: E,
    w0: World<V>,
    w1: World<V>,
)
    requires
        broadcast_step(before, after, e, w0, w1),
        forall|i: int| 0 <= i < before.len() ==> ref_keeps_contract(#[trigger] before[i]),
    ensures
        after.len() == before.len(),
        forall|i: int, w: World<V>, x: E| 0 <= i < before.len() ==> #[trigger] after[i].0.h_pre(w, x) == before[i].0.h_pre(w, x),
        forall|x: E, a: World<V>, b: World<V>| #[trigger] broadcast_chain(after, x, a, b) == broadcast_chain(before, x, a, b),
{
    assert forall|i: int| #![trigger after[i]] 0 <= i < before.len() implies
        (forall|w: World<V>, x: E| #[trigger] after[i].0.h_pre(w, x) == before[i].0.h_pre(w, x))
        && (forall|a: World<V>, x: E, b: World<V>| #[trigger] after[i].0.h_rel(a, x, b) == before[i].0.h_rel(a, x, b)) by {
        lemma_broadcast_keeps_handlers(before, after, e, w0, w1, i);
        let (p, q) = choose|p: World<V>, q: World<V>| #[trigger] ref_advanced(before[i], after[i], p, e, q);
        let np = |w: World<V>, x: E| after[i].0.h_pre(w, x);
        let nr = |a: World<V>, x: E, b: World<V>| after[i].0.h_rel(a, x, b);
        assert(before[i].0.h_next(p, e, q, np, nr));
        assert(ref_keeps_contract(before[i]));
        assert forall|w: World<V>, x: E| #[trigger] after[i].0.h_pre(w, x) == before[i].0.h_pre(w, x) by {
            assert(np(w, x) == after[i].0.h_pre(w, x));
        }
        assert forall|a: World<V>, x: E, b: World<V>| #[trigger] after[i].0.h_rel(a, x, b) == before[i].0.h_rel(a, x, b) by {
            assert(nr(a, x, b) == after[i].0.h_rel(a, x, b));
        }
    }
    assert forall|x: E, a: World<V>, b: World<V>| #[trigger] broadcast_chain(after, x, a, b) == broadcast_chain(before, x, a, b) by {
        if broadcast_chain(after, x, a, b) {
            let ws = choose|ws: Seq<World<V>>| {
                &&& ws.len() == after.len() + 1
                &&& ws[0] == a
                &&& ws[after.len() as int] == b
                &&& forall|i: int| 0 <= i < after.len() ==> #[trigger] after[i].0.h_rel(ws[i], x, ws[i + 1])
            };
            assert forall|i: int| 0 <= i < before.len() implies #[trigger] before[i].0.h_rel(ws[i], x, ws[i + 1]) by {
                assert(after[i].0.h_rel(ws[i], x, ws[i + 1]));
            }
        }
        if broadcast_chain(before, x, a, b) {
            let ws = choose|ws: Seq<World<V>>| {
                &&& ws.len() == before.len() + 1
                &&& ws[0] == a
                &&& ws[before.len() as int] == b
                &&& forall|i: int| 0 <= i < before.len() ==> #[trigger] before[i].0.h_rel(ws[i], x, ws[i + 1])
            };
            assert forall|i: int| 0 <= i < after.len() implies #[trigger] after[i].0.h_rel(ws[i], x, ws[i + 1]) by {
                assert(before[i].0.h_rel(ws[i], x, ws[i + 1]));
            }
        }
    }
}

impl<V, E> Broadcast<V, E> {
    /// The handlers, in the order added.
    pub closed spec fn handlers(&self) -> Seq<BoxedRefHandler<V, E>> {
        self.handlers@
    }

    /// An empty broadcast.
    pub fn new() -> (r: Broadcast<V, E>)
        ensures r.handlers().len() == 0,
    {
        Broadcast { handlers: Vec::new() }
    }

    /// Add a handler at the end.
    pub fn add<H: RefHandler<V, E> + 'static>(&mut self, handler: H)
        ensures
            final(self).handlers() == old(self).handlers().push(boxed_ref(handler)),
    {
        let b = BoxedRefHandler::new(handler);
        self.handlers.push(b);
    }

    /// Number of handlers.
    pub fn len(&self) -> (r: usize)
        ensures r == self.handlers().len(),
    {
        self.handlers.len()
    }

    /// Whether there are no handlers.
    pub fn is_empty(&self) -> (r: bool)
        ensures r == (self.handlers().len() == 0),
    {
        self.handlers.len() == 0
    }
}

impl<V, E> Handler<V, E> for Broadcast<V, E> {
    open spec fn h_pre(&self, w: World<V>, e: E) -> bool {
        forall|i: int, w1: World<V>| 0 <= i < self.handlers().len() && w1@.keys == w@.keys
            ==> #[trigger] self.handlers()[i].0.h_pre(w1, e)
    }

    open spec fn h_rel(&self, w0: World<V>, e: E, w1: World<V>) -> bool {
        broadcast_chain(self.handlers(), e, w0, w1)
    }

    fn run(&mut self, world: &mut World<V>, event: E)
        ensures broadcast_step(old(self).handlers(), final(self).handlers(), event, *old(world), *final(world)),
    {
        let n = self.handlers.len();
        let ghost hs = self.handlers@;
        let ghost keys = world@.keys;
        let ghost mut ws: Seq<World<V>> = seq![*world];
        proof {
            assert forall|j: int, w1: World<V>| 0 <= j < n && w1@.keys == keys implies #[trigger] hs[j].0.h_pre(w1, event) by {
                assert(old(self).handlers()[j].0.h_pre(w1, event));
            }
        }
        let mut i: usize = 0;
        while i < n
            invariant
                n == hs.len(),
                i <= n,
                self.handlers@.len() == n,
                forall|j: int| i <= j < n ==> self.handlers@[j] == hs[j],
                world@.keys == keys,
                world@.seq == old(world)@.seq,
                ws.len() == i + 1,
                ws[0] == *old(world),
                ws[i as int] == *world,
                forall|j: int| 0 <= j < i ==> #[trigger] hs[j].0.h_rel(ws[j], event, ws[j + 1])
                    && ref_advanced(hs[j], self.handlers@[j], ws[j], event, ws[j + 1]),
                keys == old(world)@.keys,
                forall|j: int, w1: World<V>| 0 <= j < n && w1@.keys == keys ==> #[trigger] hs[j].0.h_pre(w1, event),
            decreases n - i,
        {
            assert(hs[i as int].0.h_pre(*world, event));
            let ghost hs_now = self.handlers@;
            self.handlers[i].0.run(world, &event);
            proof {
                let ws0 = ws;
                ws = ws.push(*world);
                assert forall|j: int| 0 <= j < i + 1 implies #[trigger] hs[j].0.h_rel(ws[j], event, ws[j + 1])
                    && ref_advanced(hs[j], self.handlers@[j], ws[j], event, ws[j + 1]) by {
                    if j < i {
                        assert(ws[j] == ws0[j] && ws[j + 1] == ws0[j + 1]);
                        assert(self.handlers@[j] == hs_now[j]);
                    } else {
                        assert(hs_now[j] == hs[j]);
                        assert(ref_advanced(hs_now[j], self.handlers@[j], ws0[j], event, *world));
                    }
                }
            }
            i += 1;
        }
        proof {
            assert(broadcast_chain(hs, event, *old(world), *world));
            assert(broadcast_step(hs, self.handlers@, event, *old(world), *world));
        }
    }

    open spec fn h_name(&self) -> &'static str {
        "Broadcast"
    }

    fn name(&self) -> &'static str {
        "Broadcast"
    }
}

} // verus!
