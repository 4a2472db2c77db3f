//! Readiness-driven I/O dispatch on top of `mio`.
//!
//! [`MioDriver`] owns the `mio::Poll` and the handlers waiting for
//! readiness, keyed by [`MioToken`]s that a slab hands out. Handlers are
//! one-shot: a handler that fires is removed, and re-inserts itself (or a
//! successor) if it wants more events. Waiting on the poll is the event
//! loop's I/O; [`MioPoller::dispatch`] takes the readiness it reported and
//! runs the handlers.
use vstd::prelude::*;
use core::marker::PhantomData;
use crate::world::{World, WorldBuilder, WorldView};
use crate::handler::{Handler, BoxedHandler};
use crate::driver::Installer;
use crate::testing::seq_after;

verus! {

/// `mio::Poll`, the OS readiness selector, carried opaque: the driver owns
/// it and hands it to the event loop.
#[verifier::external_type_specification]
#[verifier::external_body]
pub struct ExPoll(::mio::Poll);

/// `mio::event::Event`, one readiness report, carried opaque to the
/// handler it is for.
#[verifier::external_type_specification]
#[verifier::external_body]
pub struct ExEvent(::mio::event::Event);

/// `slab::Slab`, the token allocator of the driver; what it holds is
/// described by the names below.
#[verifier::external_type_specification]
#[verifier::external_body]
#[verifier::reject_recursive_types(T)]
pub struct ExSlab<T>(::slab::Slab<T>);

/// The keys a slab holds values under.
pub uninterp spec fn slab_keys(s: ::slab::Slab<()>) -> Set<usize>;

/// The number of entries a slab has laid out (occupied or vacant); every
/// key is below it.
pub uninterp spec fn slab_extent(s: ::slab::Slab<()>) -> nat;

/// The key the slab's next insert will use (its `next` field).
pub uninterp spec fn slab_next(s: ::slab::Slab<()>) -> usize;

/// `Slab::with_capacity`: a slab with no keys and no entries; the capacity
/// only reserves room.
#[verifier::external_body]
fn slab_with_capacity(capacity: usize) -> (r: ::slab::Slab<()>)
    ensures
        slab_keys(r) == Set::<usize>::empty(),
        slab_extent(r) == 0,
        slab_next(r) == 0,
{
    ::slab::Slab::with_capacity(capacity)
}

/// `Slab::insert`: stores the value under the slab's next vacant key and
/// returns that key. The key was not in use; it is either a vacated entry
/// below the extent or the first key past it, which then grows by one.
/// Where the following insert goes is not stated.
#[verifier::external_body]
fn slab_insert(s: &mut ::slab::Slab<()>) -> (k: usize)
    requires slab_extent(*old(s)) < usize::MAX,
    ensures
        k == slab_next(*old(s)),
        !slab_keys(*old(s)).contains(k),
        slab_keys(*final(s)) == slab_keys(*old(s)).insert(k),
        k <= slab_extent(*old(s)),
        slab_extent(*final(s)) == if k == slab_extent(*old(s)) { slab_extent(*old(s)) + 1 } else { slab_extent(*old(s)) },
{
    s.insert(())
}

/// `Slab::remove` of a key in use: the key is released and becomes the
/// key of the next insert; the entries stay laid out. The slab panics on a
/// key not in use, which `requires` rules out.
#[verifier::external_body]
fn slab_remove(s: &mut ::slab::Slab<()>, k: usize)
    requires slab_keys(*old(s)).contains(k),
    ensures
        slab_keys(*final(s)) == slab_keys(*old(s)).remove(k),
        slab_extent(*final(s)) == slab_extent(*old(s)),
        slab_next(*final(s)) == k,
{
    s.remove(k)
}

/// `Slab::contains`: whether a value is stored under `k`.
#[verifier::external_body]
fn slab_contains(s: &::slab::Slab<()>, k: usize) -> (r: bool)
    ensures r == slab_keys(*s).contains(k),
{
    s.contains(k)
}

/// `Slab::len`: the number of keys in use.
#[verifier::external_body]
fn slab_len(s: &::slab::Slab<()>) -> (r: usize)
    ensures r == slab_keys(*s).len(),
{
    s.len()
}

/// Default capacity of the readiness buffer.
pub const DEFAULT_EVENT_CAPACITY: usize = 1024;

/// Default number of handler slots reserved up front.
pub const DEFAULT_HANDLER_CAPACITY: usize = 64;

/// Key of a handler in a [`MioDriver`]; register event sources with the
/// `mio::Token` of the same number.
#[derive(Clone, Copy, PartialEq, Eq, Structural, Debug, Hash)]
pub struct MioToken(pub usize);

/// The poll and the handlers waiting for readiness.
#[verifier::reject_recursive_types(V)]
pub struct MioDriver<V> {
    poll: ::mio::Poll,
    keys: ::slab::Slab<()>,
    handlers: Vec<Option<BoxedHandler<V, ::mio::event::Event>>>,
}

/// `d1` is `d0` after `h` was inserted under the fresh token `t`: the token
/// was free and was the driver's next token; every earlier handler stays.
pub open spec fn inserted<V>(d0: MioDriver<V>, h: BoxedHandler<V, ::mio::event::Event>, d1: MioDriver<V>, t: MioToken) -> bool {
    &&& d1.wf()
    &&& t.0 == d0.next_token()
    &&& !d0.tokens().contains(t.0)
    &&& d1.tokens() == d0.tokens().insert(t.0)
    &&& d1.handler(t.0) == h
    &&& t.0 <= d0.extent()
    &&& d1.extent() == if t.0 == d0.extent() { d0.extent() + 1 } else { d0.extent() }
    &&& forall|k: usize| #[trigger] d0.tokens().contains(k) ==> d1.handler(k) == d0.handler(k)
}

/// `d1` is `d0` after the handler `h` under `t` was taken out: the token is
/// free again and is the driver's next token; every other handler stays.
pub open spec fn removed<V>(d0: MioDriver<V>, t: MioToken, d1: MioDriver<V>, h: BoxedHandler<V, ::mio::event::Event>) -> bool {
    &&& d1.wf()
    &&& h == d0.handler(t.0)
    &&& d1.tokens() == d0.tokens().remove(t.0)
    &&& d1.next_token() == t.0
    &&& d1.extent() == d0.extent()
    &&& forall|k: usize| #[trigger] d1.tokens().contains(k) ==> d1.handler(k) == d0.handler(k)
}

/// Token reuse: taking a handler out and inserting another hands out the
/// same token again; the driver then has the tokens it had, the new handler
/// under that token and every other handler unchanged.
pub proof fn lemma_remove_then_insert<V>(
    d0: MioDriver<V>,
    t: MioToken,
    h: BoxedHandler<V, ::mio::event::Event>,
    d1: MioDriver<V>,
    h2: BoxedHandler<V, ::mio::event::Event>,
    d2: MioDriver<V>,
    t2: MioToken,
)
    requires
        d0.tokens().contains(t.0),
        removed(d0, t, d1, h),
        inserted(d1, h2, d2, t2),
    ensures
        t2 == t,
        d2.tokens() == d0.tokens(),
        d2.handler(t.0) == h2,
        forall|k: usize| #[trigger] d0.tokens().contains(k) && k != t.0 ==> d2.handler(k) == d0.handler(k),
{
    assert(d2.tokens() =~= d0.tokens());
    assert forall|k: usize| #[trigger] d0.tokens().contains(k) && k != t.0 implies d2.handler(k) == d0.handler(k) by {
        assert(d1.tokens().contains(k));
    }
}

impl<V> MioDriver<V> {
    /// The slots agree with the slab: a slot holds a handler exactly when
    /// its key is in use.
    pub closed spec fn wf(&self) -> bool {
        &&& self.handlers@.len() == slab_extent(self.keys)
        &&& slab_keys(self.keys).finite()
        &&& forall|k: usize| #[trigger] slab_keys(self.keys).contains(k) ==> k < slab_extent(self.keys)
        &&& forall|k: int| 0 <= k < self.handlers@.len() ==>
            (#[trigger] self.handlers@[k] is Some <==> slab_keys(self.keys).contains(k as usize))
    }

    /// The tokens that have a handler.
    pub closed spec fn tokens(&self) -> Set<usize> {
        slab_keys(self.keys)
    }

    /// The handler under token `k`.
    pub closed spec fn handler(&self, k: usize) -> BoxedHandler<V, ::mio::event::Event> {
        self.handlers@[k as int].unwrap()
    }

    /// Every key in use is below this bound.
    pub closed spec fn extent(&self) -> nat {
        slab_extent(self.keys)
    }

    /// The token the next insert will hand out.
    pub closed spec fn next_token(&self) -> usize {
        slab_next(self.keys)
    }

    /// A driver over `poll` with no handlers, reserving `capacity` slots.
    pub fn new(poll: ::mio::Poll, capacity: usize) -> (r: MioDriver<V>)
        ensures r.wf(), r.tokens() == Set::<usize>::empty(), r.next_token() == 0, r.extent() == 0,
    {
        MioDriver { poll, keys: slab_with_capacity(capacity), handlers: Vec::new() }
    }

    /// The number of slots laid out, used or free: every token is below it,
    /// and an insert needs it below `usize::MAX`.
    pub fn slots(&self) -> (r: usize)
        requires self.wf(),
        ensures r == self.extent(),
    {
        self.handlers.len()
    }

    /// The poll the driver holds.
    pub closed spec fn poll_of(&self) -> ::mio::Poll {
        self.poll
    }

    /// The poll; event sources are registered with its registry.
    pub fn poll(&self) -> (r: &::mio::Poll)
        ensures *r == self.poll_of(),
    {
        &self.poll
    }

    /// The poll, for the event loop to wait on.
    pub fn poll_mut(&mut self) -> (r: &mut ::mio::Poll)
        ensures
            *r == old(self).poll_of(),
            final(self).poll_of() == *final(r),
            final(self).tokens() == old(self).tokens(),
            final(self).wf() == old(self).wf(),
            final(self).next_token() == old(self).next_token(),
            final(self).extent() == old(self).extent(),
            forall|k: usize| #[trigger] final(self).handler(k) == old(self).handler(k),
    {
        &mut self.poll
    }

    /// Store a handler under a fresh token and return the token.
    pub fn insert(&mut self, handler: BoxedHandler<V, ::mio::event::Event>) -> (t: MioToken)
        requires old(self).wf(), old(self).extent() < usize::MAX,
        ensures inserted(*old(self), handler, *final(self), t),
    {
        let k = slab_insert(&mut self.keys);
        if k == self.handlers.len() {
            self.handlers.push(Some(handler));
        } else {
            self.handlers.set(k, Some(handler));
        }
        proof {
            assert forall|j: int| 0 <= j < self.handlers@.len() implies
                (#[trigger] self.handlers@[j] is Some <==> slab_keys(self.keys).contains(j as usize)) by {
                if j != k as int {
                    assert(old(self).handlers@[j] == self.handlers@[j]);
                }
            }
        }
        MioToken(k)
    }

    /// Take the handler under `token` out; the token is released and may be
    /// handed out again.
    pub fn remove(&mut self, token: MioToken) -> (h: BoxedHandler<V, ::mio::event::Event>)
        requires old(self).wf(), old(self).tokens().contains(token.0),
        ensures removed(*old(self), token, *final(self), h),
    {
        slab_remove(&mut self.keys, token.0);
        let mut slot: Option<BoxedHandler<V, ::mio::event::Event>> = None;
        self.handlers.set_and_swap(token.0, &mut slot);
        let n: usize = self.handlers.len();
        proof {
            assert forall|j: int| 0 <= j < self.handlers@.len() implies
                (#[trigger] self.handlers@[j] is Some <==> slab_keys(self.keys).contains(j as usize)) by {
                assert(j < n);
                if j != token.0 as int {
                    assert(old(self).handlers@[j] == self.handlers@[j]);
                    assert(j as usize != token.0);
                } else {
                    assert(self.handlers@[j] is None);
                }
            }
        }
        slot.unwrap()
    }

    /// Whether `token` has a handler.
    pub fn contains(&self, token: MioToken) -> (r: bool)
        ensures r == self.tokens().contains(token.0),
    {
        slab_contains(&self.keys, token.0)
    }

    /// Number of handlers.
    pub fn len(&self) -> (r: usize)
        ensures r == self.tokens().len(),
    {
        slab_len(&self.keys)
    }

    /// Whether there are no handlers.
    pub fn is_empty(&self) -> (r: bool)
        ensures r == (self.tokens().len() == 0),
    {
        slab_len(&self.keys) == 0
    }
}

/// Builder for the mio driver: the poll to wait on and the initial
/// capacities.
#[verifier::reject_recursive_types(V)]
pub struct MioInstaller<V> {
    poll: ::mio::Poll,
    event_capacity: usize,
    handler_capacity: usize,
    marker: PhantomData<V>,
}

impl<V> MioInstaller<V> {
    /// The readiness-buffer capacity and the handler capacity.
    pub closed spec fn capacities(&self) -> (usize, usize) {
        (self.event_capacity, self.handler_capacity)
    }

    /// An installer for `poll` with the default capacities.
    pub fn new(poll: ::mio::Poll) -> (r: MioInstaller<V>)
        ensures r.capacities() == (DEFAULT_EVENT_CAPACITY, DEFAULT_HANDLER_CAPACITY),
    {
        MioInstaller {
            poll,
            event_capacity: DEFAULT_EVENT_CAPACITY,
            handler_capacity: DEFAULT_HANDLER_CAPACITY,
            marker: PhantomData,
        }
    }

    /// Set the capacity of the readiness buffer.
    pub fn event_capacity(self, cap: usize) -> (r: MioInstaller<V>)
        ensures r.capacities() == (cap, self.capacities().1),
    {
        MioInstaller { event_capacity: cap, ..self }
    }

    /// Set the number of handler slots reserved up front.
    pub fn handler_capacity(self, cap: usize) -> (r: MioInstaller<V>)
        ensures r.capacities() == (self.capacities().0, cap),
    {
        MioInstaller { handler_capacity: cap, ..self }
    }

    /// The poller, owning a driver with no handlers.
    pub fn into_poller(self) -> (p: MioPoller<V>)
        ensures
            p.wf(),
            p.driver_spec().tokens() == Set::<usize>::empty(),
            p.driver_spec().extent() == 0,
            p.event_capacity_spec() == self.capacities().0,
    {
        MioPoller { driver: MioDriver::new(self.poll, self.handler_capacity), event_capacity: self.event_capacity }
    }
}

impl<V> Installer<V> for MioInstaller<V> {
    type Poller = MioPoller<V>;

    open spec fn install_pre(&self, world: WorldBuilder<V>) -> bool {
        world.wf()
    }

    /// The builder is left as it is; the poller owns a driver with no
    /// handlers and the installer's event capacity.
    open spec fn installed(&self, w0: WorldBuilder<V>, w1: WorldBuilder<V>, p: MioPoller<V>) -> bool {
        &&& w1 == w0
        &&& p.wf()
        &&& p.driver_spec().tokens() == Set::<usize>::empty()
        &&& p.driver_spec().extent() == 0
        &&& p.event_capacity_spec() == self.capacities().0
    }

    /// Build the poller; the driver is owned by the poller, so the world
    /// is left as it is.
    fn install(self, world: &mut WorldBuilder<V>) -> (p: MioPoller<V>) {
        self.into_poller()
    }
}

/// The tokens of a readiness list, in order.
pub open spec fn ready_tokens(ready: Seq<(MioToken, ::mio::event::Event)>) -> Seq<usize> {
    ready.map_values(|p: (MioToken, ::mio::event::Event)| p.0.0)
}

/// The tokens at positions `ps` of `toks`.
pub open spec fn tokens_at(toks: Seq<usize>, ps: Seq<int>) -> Seq<usize> {
    ps.map_values(|p: int| toks[p])
}

/// The positions among the first `n` of `toks` that fire, taking the list
/// in order: a token fires where it is in `live` and has not fired yet.
pub open spec fn fired_positions(live: Set<usize>, toks: Seq<usize>, n: nat) -> Seq<int>
    decreases n,
{
    if n == 0 {
        Seq::empty()
    } else {
        let pre = fired_positions(live, toks, (n - 1) as nat);
        let i = n - 1;
        if live.contains(toks[i]) && !tokens_at(toks, pre).contains(toks[i]) { pre.push(i) } else { pre }
    }
}

/// Every fired position is among the first `n`, lists a token of `live`,
/// and the positions are increasing.
pub proof fn lemma_fired_positions(live: Set<usize>, toks: Seq<usize>, n: nat)
    requires n <= toks.len(),
    ensures
        forall|j: int| 0 <= j < fired_positions(live, toks, n).len() ==> {
            let p = #[trigger] fired_positions(live, toks, n)[j];
            0 <= p < n && live.contains(toks[p])
        },
    decreases n,
{
    if n > 0 {
        let pre = fired_positions(live, toks, (n - 1) as nat);
        lemma_fired_positions(live, toks, (n - 1) as nat);
        let ps = fired_positions(live, toks, n);
        assert forall|j: int| 0 <= j < ps.len() implies {
            let p = #[trigger] ps[j];
            0 <= p < n && live.contains(toks[p])
        } by {
            if j < pre.len() {
                assert(ps[j] == pre[j]);
            }
        }
    }
}

/// Running handlers `hs` on events `evs` in order, advancing the sequence
/// before each, takes the world from `w0` to `w1`.
pub open spec fn dispatch_chain<V, E>(hs: Seq<BoxedHandler<V, E>>, evs: Seq<E>, w0: World<V>, w1: World<V>) -> bool {
    exists|ws: Seq<World<V>>, was: Seq<World<V>>| {
        &&& ws.len() == hs.len() + 1
        &&& was.len() == hs.len()
        &&& evs.len() == hs.len()
        &&& ws[0] == w0
        &&& ws[hs.len() as int] == w1
        &&& forall|i: int| 0 <= i < hs.len() ==>
            (#[trigger] was[i])@ == ws[i]@.advanced() && hs[i].0.h_rel(was[i], evs[i], ws[i + 1])
    }
}

/// Dispatches readiness to the driver's handlers.
#[verifier::reject_recursive_types(V)]
pub struct MioPoller<V> {
    driver: MioDriver<V>,
    event_capacity: usize,
}

impl<V> MioPoller<V> {
    /// The driver is well formed.
    pub closed spec fn wf(&self) -> bool {
        self.driver.wf()
    }

    /// The driver.
    pub closed spec fn driver_spec(&self) -> MioDriver<V> {
        self.driver
    }

    /// Capacity the event loop should give its readiness buffer.
    pub closed spec fn event_capacity_spec(&self) -> usize {
        self.event_capacity
    }

    /// The driver.
    pub fn driver(&self) -> (r: &MioDriver<V>)
        ensures *r == self.driver_spec(),
    {
        &self.driver
    }

    /// The driver, to insert or remove handlers and register sources.
    pub fn driver_mut(&mut self) -> (r: &mut MioDriver<V>)
        ensures
            *r == old(self).driver_spec(),
            final(self).driver_spec() == *final(r),
            final(self).event_capacity_spec() == old(self).event_capacity_spec(),
            final(self).wf() == final(r).wf(),
    {
        &mut self.driver
    }

    /// Capacity the event loop should give its readiness buffer.
    pub fn events_capacity(&self) -> (r: usize)
        ensures r == self.event_capacity_spec(),
    {
        self.event_capacity
    }

    /// Run the handlers for one poll's readiness, in order. Every ready
    /// token that still has a handler has it removed first; then each
    /// removed handler runs once on its event, the sequence advancing
    /// before each run. A token listed twice fires once. Returns the
    /// number of handlers run.
    pub fn dispatch(&mut self, world: &mut World<V>, ready: Vec<(MioToken, ::mio::event::Event)>) -> (fired: usize)
        requires
            old(self).wf(),
            forall|k: usize, w: World<V>, e: ::mio::event::Event|
                old(self).driver_spec().tokens().contains(k) && w@.keys == old(world)@.keys
                    ==> #[trigger] old(self).driver_spec().handler(k).0.h_pre(w, e),
        ensures
            final(self).wf(),
            fired == fired_positions(old(self).driver_spec().tokens(), ready_tokens(ready@), ready@.len()).len(),
            forall|t: usize| #[trigger] final(self).driver_spec().tokens().contains(t) <==>
                old(self).driver_spec().tokens().contains(t)
                && !tokens_at(ready_tokens(ready@), fired_positions(old(self).driver_spec().tokens(), ready_tokens(ready@), ready@.len())).contains(t),
            forall|t: usize| #[trigger] final(self).driver_spec().tokens().contains(t) ==>
                final(self).driver_spec().handler(t) == old(self).driver_spec().handler(t),
            dispatch_chain(
                fired_positions(old(self).driver_spec().tokens(), ready_tokens(ready@), ready@.len())
                    .map_values(|p: int| old(self).driver_spec().handler(ready@[p].0.0)),
                fired_positions(old(self).driver_spec().tokens(), ready_tokens(ready@), ready@.len())
                    .map_values(|p: int| ready@[p].1),
                *old(world),
                *final(world),
            ),
            final(world)@.keys == old(world)@.keys,
            final(world)@.seq == seq_after(old(world)@.seq, fired as nat),
    {
        let ghost d0 = self.driver;
        let ghost live = self.driver.tokens();
        let ghost toks = ready_tokens(ready@);
        let n = ready.len();
        // Reverse the readiness list so that popping yields it in order.
        let mut src = ready;
        let mut rev: Vec<(MioToken, ::mio::event::Event)> = Vec::new();
        while src.len() > 0
            invariant
                src@.len() + rev@.len() == n,
                n == ready@.len(),
                forall|j: int| 0 <= j < src@.len() ==> #[trigger] src@[j] == ready@[j],
                forall|j: int| 0 <= j < rev@.len() ==> #[trigger] rev@[j] == ready@[n - 1 - j],
            decreases src@.len(),
        {
            let x = src.pop().unwrap();
            rev.push(x);
        }
        // Take out every handler that fires.
        let mut buf: Vec<(::mio::event::Event, BoxedHandler<V, ::mio::event::Event>)> = Vec::new();
        let mut i: usize = 0;
        while i < n
            invariant
                i <= n,
                n == ready@.len(),
                toks == ready_tokens(ready@),
                rev@.len() == n - i,
                forall|j: int| 0 <= j < rev@.len() ==> #[trigger] rev@[j] == ready@[n - 1 - j],
                self.driver.wf(),
                buf@.len() == fired_positions(live, toks, i as nat).len(),
                forall|j: int| 0 <= j < buf@.len() ==> {
                    let p = #[trigger] fired_positions(live, toks, i as nat)[j];
                    &&& buf@[j].0 == ready@[p].1
                    &&& buf@[j].1 == d0.handler(ready@[p].0.0)
                },
                forall|t: usize| #[trigger] self.driver.tokens().contains(t) <==>
                    live.contains(t) && !tokens_at(toks, fired_positions(live, toks, i as nat)).contains(t),
                forall|t: usize| #[trigger] self.driver.tokens().contains(t) ==> self.driver.handler(t) == d0.handler(t),
            decreases n - i,
        {
            let (tok, ev) = rev.pop().unwrap();
            proof {
                assert(rev@.len() == n - i - 1);
                assert(toks[i as int] == tok.0);
            }
            let ghost ps = fired_positions(live, toks, i as nat);
            proof {
                lemma_fired_positions(live, toks, i as nat);
                lemma_fired_positions(live, toks, (i + 1) as nat);
            }
            let ghost tokens_before = self.driver.tokens();
            if self.driver.contains(tok) {
                let h = self.driver.remove(tok);
                buf.push((ev, h));
                proof {
                    let ps1 = fired_positions(live, toks, (i + 1) as nat);
                    assert(ps1 == ps.push(i as int));
                    assert(tokens_at(toks, ps1) =~= tokens_at(toks, ps).push(tok.0));
                    assert forall|t: usize| #[trigger] self.driver.tokens().contains(t) <==>
                        live.contains(t) && !tokens_at(toks, ps1).contains(t) by {
                        assert(tokens_before.contains(t) <==> live.contains(t) && !tokens_at(toks, ps).contains(t));
                        if t == tok.0 {
                            assert(tokens_at(toks, ps1)[ps.len() as int] == t);
                        } else {
                            if tokens_at(toks, ps1).contains(t) {
                                let q = choose|q: int| 0 <= q < tokens_at(toks, ps1).len() && tokens_at(toks, ps1)[q] == t;
                                assert(q < ps.len());
                                assert(tokens_at(toks, ps)[q] == t);
                            }
                            if tokens_at(toks, ps).contains(t) {
                                let q = choose|q: int| 0 <= q < tokens_at(toks, ps).len() && tokens_at(toks, ps)[q] == t;
                                assert(tokens_at(toks, ps1)[q] == t);
                            }
                        }
                    }
                    assert forall|j: int| 0 <= j < buf@.len() implies {
                        let p = #[trigger] ps1[j];
                        &&& buf@[j].0 == ready@[p].1
                        &&& buf@[j].1 == d0.handler(ready@[p].0.0)
                    } by {
                        if j < ps.len() {
                            assert(ps1[j] == ps[j]);
                        }
                    }
                }
            } else {
                proof {
                    let ps1 = fired_positions(live, toks, (i + 1) as nat);
                    assert(ps1 == ps);
                }
            }
            i += 1;
        }
        let ghost ps = fired_positions(live, toks, n as nat);
        let ghost hs = ps.map_values(|p: int| d0.handler(ready@[p].0.0));
        let ghost evs = ps.map_values(|p: int| ready@[p].1);
        proof {
            lemma_fired_positions(live, toks, n as nat);
            assert forall|j: int| 0 <= j < ps.len() implies #[trigger] hs[j] == d0.handler(ready@[ps[j]].0.0)
                && live.contains(ready@[ps[j]].0.0) by {
                assert(toks[ps[j]] == ready@[ps[j]].0.0);
            }
            assert forall|kk: usize, w: World<V>, e: ::mio::event::Event|
                live.contains(kk) && w@.keys == world@.keys implies #[trigger] d0.handler(kk).0.h_pre(w, e) by {
                assert(old(self).driver_spec().handler(kk).0.h_pre(w, e));
            }
        }
        // Reverse the buffer so that popping yields it in order.
        let m = buf.len();
        let mut todo: Vec<(::mio::event::Event, BoxedHandler<V, ::mio::event::Event>)> = Vec::new();
        while buf.len() > 0
            invariant
                buf@.len() + todo@.len() == m,
                m == ps.len(),
                forall|j: int| 0 <= j < buf@.len() ==> #[trigger] buf@[j] == (evs[j], hs[j]),
                forall|j: int| 0 <= j < todo@.len() ==> #[trigger] todo@[j] == (evs[m - 1 - j], hs[m - 1 - j]),
            decreases buf@.len(),
        {
            let x = buf.pop().unwrap();
            todo.push(x);
        }
        // Run them, advancing the sequence before each.
        let ghost keys = world@.keys;
        let ghost s0 = world@.seq;
        let ghost mut ws: Seq<World<V>> = seq![*world];
        let ghost mut was: Seq<World<V>> = Seq::empty();
        let mut k: usize = 0;
        while k < m
            invariant
                k <= m,
                m == ps.len(),
                hs.len() == m,
                evs.len() == m,
                todo@.len() == m - k,
                forall|j: int| 0 <= j < todo@.len() ==> #[trigger] todo@[j] == (evs[m - 1 - j], hs[m - 1 - j]),
                forall|j: int| 0 <= j < m ==> #[trigger] hs[j] == d0.handler(ready@[ps[j]].0.0) && live.contains(ready@[ps[j]].0.0),
                forall|kk: usize, w: World<V>, e: ::mio::event::Event|
                    live.contains(kk) && w@.keys == keys ==> #[trigger] d0.handler(kk).0.h_pre(w, e),
                world@.keys == keys,
                world@.seq == seq_after(s0, k as nat),
                ws.len() == k + 1,
                was.len() == k,
                ws[0] == *old(world),
                ws[k as int] == *world,
                forall|j: int| 0 <= j < k ==>
                    (#[trigger] was[j])@ == ws[j]@.advanced() && hs[j].0.h_rel(was[j], evs[j], ws[j + 1]),
            decreases m - k,
        {
            let (ev, mut h) = todo.pop().unwrap();
            proof {
                assert(todo@.len() == m - k - 1);
                assert(ev == evs[k as int] && h == hs[k as int]);
            }
            world.next_sequence();
            let ghost wa = *world;
            proof {
                assert(hs[k as int] == d0.handler(ready@[ps[k as int]].0.0));
                assert(h.0.h_pre(wa, ev));
            }
            h.0.run(world, ev);
            proof {
                was = was.push(wa);
                ws = ws.push(*world);
            }
            k += 1;
        }
        proof {
            assert(dispatch_chain(hs, evs, ws[0], ws[m as int]));
        }
        m
    }
}

} // verus!
