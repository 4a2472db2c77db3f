//! Test harness: owns a world and dispatches events to handlers the way
//! the event loop does, advancing the sequence before each event.
use vstd::prelude::*;
use crate::world::{World, WorldBuilder, WorldView, Registry, next_seq};
use crate::handler::Handler;

verus! {

/// Owns a [`World`] and dispatches events to handlers.
pub struct TestHarness<V> {
    world: World<V>,
}

/// The sequence after `n` dispatches from `s`.
pub open spec fn seq_after(s: i64, n: nat) -> i64
    decreases n,
{
    if n == 0 { s } else { next_seq(seq_after(s, (n - 1) as nat)) }
}

/// Running the handler states `hs` on the events `evs` in turn, each on the
/// world with its sequence advanced, takes the world from `w0` to `w1`:
/// some chain of worlds links their relations.
pub open spec fn harness_chain<V, E, H: Handler<V, E>>(hs: Seq<H>, evs: Seq<E>, w0: World<V>, w1: World<V>) -> bool {
    exists|ws: Seq<World<V>>, was: Seq<World<V>>| {
        &&& ws.len() == evs.len() + 1
        &&& was.len() == evs.len()
        &&& hs.len() >= evs.len()
        &&& ws[0] == w0
        &&& ws[evs.len() as int] == w1
        &&& forall|i: int| 0 <= i < evs.len() ==>
            (#[trigger] was[i])@ == ws[i]@.advanced() && hs[i].h_rel(was[i], evs[i], ws[i + 1])
    }
}

impl<V> View for TestHarness<V> {
    type V = WorldView<V>;

    closed spec fn view(&self) -> WorldView<V> {
        self.world@
    }
}

impl<V> TestHarness<V> {
    /// The harness's world.
    pub closed spec fn world_spec(&self) -> World<V> {
        self.world
    }

    /// Build the world from `builder`.
    pub fn new(builder: WorldBuilder<V>) -> (r: TestHarness<V>)
        requires builder.wf(),
        ensures
            r@.keys == builder.registry()@,
            r@.values == builder.values_view(),
            r@.seq == 0,
    {
        TestHarness { world: builder.build() }
    }

    /// The world's registry.
    pub fn registry(&self) -> (r: Registry)
        ensures r@ == self@.keys,
    {
        self.world.registry()
    }

    /// Advance the sequence, then run `handler` on `event`.
    pub fn dispatch<E, H: Handler<V, E>>(&mut self, handler: &mut H, event: E)
        requires
            forall|w: World<V>| w@ == old(self)@.advanced() ==> #[trigger] old(handler).h_pre(w, event),
        ensures
            exists|w: World<V>| w@ == old(self)@.advanced() && #[trigger] old(handler).h_rel(w, event, final(self).world_spec()),
            final(self)@.keys == old(self)@.keys,
            final(self)@.seq == next_seq(old(self)@.seq),
    {
        let ghost e = event;
        self.world.next_sequence();
        let ghost w1 = self.world;
        assert(old(handler).h_pre(w1, e));
        handler.run(&mut self.world, event);
        assert(old(handler).h_rel(w1, e, self.world));
        assert(w1@ == old(self)@.advanced());
        assert(self.world == self.world_spec());
    }

    /// Dispatch each event in order; the handler must accept any event on
    /// any world with these resources, whatever its state.
    pub fn dispatch_many<E, H: Handler<V, E>>(&mut self, handler: &mut H, events: Vec<E>)
        requires
            forall|h: H, w: World<V>, e: E| w@.keys == old(self)@.keys ==> #[trigger] h.h_pre(w, e),
        ensures
            final(self)@.keys == old(self)@.keys,
            final(self)@.seq == seq_after(old(self)@.seq, events@.len()),
            exists|hs: Seq<H>| {
                &&& hs.len() == events@.len() + 1
                &&& hs[0] == *old(handler)
                &&& hs[events@.len() as int] == *final(handler)
                &&& harness_chain(hs, events@, old(self).world_spec(), final(self).world_spec())
            },
    {
        let ghost evs0 = events@;
        let mut evs = events;
        let n = evs.len();
        let mut rev: Vec<E> = Vec::new();
        while evs.len() > 0
            invariant
                evs@.len() + rev@.len() == n,
                n == evs0.len(),
                evs@ == evs0.take(evs@.len() as int),
                forall|j: int| 0 <= j < rev@.len() ==> rev@[j] == evs0[n - 1 - j],
            decreases evs@.len(),
        {
            let e = evs.pop().unwrap();
            rev.push(e);
            proof {
                assert(evs@ =~= evs0.take(evs@.len() as int));
            }
        }
        let ghost w0 = self.world;
        let ghost mut ws: Seq<World<V>> = seq![self.world];
        let ghost mut was: Seq<World<V>> = Seq::empty();
        let ghost mut hs: Seq<H> = seq![*handler];
        let ghost keys = self@.keys;
        let ghost s0 = self@.seq;
        let mut k: usize = 0;
        while rev.len() > 0
            invariant
                rev@.len() + k == n,
                n == events@.len(),
                self@.keys == keys,
                self@.seq == seq_after(s0, k as nat),
                forall|h: H, w: World<V>, e: E| w@.keys == keys ==> #[trigger] h.h_pre(w, e),
                n == evs0.len(),
                evs0 == events@,
                forall|j: int| 0 <= j < rev@.len() ==> rev@[j] == evs0[n - 1 - j],
                ws.len() == k + 1,
                was.len() == k,
                hs.len() == k + 1,
                ws[0] == w0,
                w0 == old(self).world_spec(),
                ws[k as int] == self.world_spec(),
                hs[0] == *old(handler),
                hs[k as int] == *handler,
                forall|i: int| 0 <= i < k ==>
                    (#[trigger] was[i])@ == ws[i]@.advanced() && hs[i].h_rel(was[i], evs0[i], ws[i + 1]),
            decreases rev@.len(),
        {
            let e = rev.pop().unwrap();
            let ghost ee = e;
            assert(ee == evs0[k as int]);
            let ghost h0 = *handler;
            let ghost wb = self.world_spec();
            self.dispatch(handler, e);
            proof {
                let wa = choose|w: World<V>| w@ == wb@.advanced() && #[trigger] h0.h_rel(w, ee, self.world_spec());
                let ws0 = ws;
                let was0 = was;
                let hs0 = hs;
                ws = ws.push(self.world_spec());
                was = was.push(wa);
                hs = hs.push(*handler);
                assert forall|i: int| 0 <= i < k + 1 implies
                    (#[trigger] was[i])@ == ws[i]@.advanced() && hs[i].h_rel(was[i], evs0[i], ws[i + 1]) by {
                    if i < k {
                        assert(was[i] == was0[i] && ws[i] == ws0[i] && ws[i + 1] == ws0[i + 1] && hs[i] == hs0[i]);
                    }
                }
            }
            k += 1;
        }
        proof {
            assert(harness_chain(hs, events@, old(self).world_spec(), self.world_spec()));
        }
    }

    /// The world.
    pub fn world(&self) -> (r: &World<V>)
        ensures *r == self.world_spec(),
    {
        &self.world
    }

    /// The world, mutably.
    pub fn world_mut(&mut self) -> (r: &mut World<V>)
        ensures *r == old(self).world_spec(), final(self).world_spec() == *final(r),
    {
        &mut self.world
    }
}

} // verus!
