//! DAG scheduler with boolean propagation.
//!
//! Systems run in topological order of their declared dependencies. Root
//! systems (no upstream) always run; any other system runs only if at
//! least one of its upstream systems ran and returned `true`. Propagation
//! is tracked in a `u64` bitmask, one bit per system, which limits the
//! scheduler to [`MAX_SYSTEMS`] systems.
use vstd::prelude::*;
use crate::world::{World, WorldBuilder, ResourceId, Sequence};
use crate::system::{System, BoxedSystem, advanced, boxed, keeps_contract, silent};
use crate::driver::Installer;
use crate::topo::{lemma_topo_order_acyclic, topological_order, edges_valid, acyclic, is_topo_order, edge_ordered, sources_below, in_release_order};
use vstd::std_specs::convert::FromSpec;

verus! {

/// Maximum number of systems: one bit of a `u64` per system.
pub const MAX_SYSTEMS: usize = 64;

/// Sequence at which the last scheduler pass completed.
#[derive(Clone, Copy, PartialEq, Eq, Structural, Debug)]
pub struct SchedulerTick(pub Sequence);

impl SchedulerTick {
    /// A tick at sequence 0.
    pub fn new() -> (r: SchedulerTick)
        ensures r.0.0 == 0,
    {
        SchedulerTick(Sequence(0))
    }

    /// The sequence at which the last pass completed.
    pub fn last(&self) -> (r: Sequence)
        ensures r == self.0,
    {
        self.0
    }
}

/// Handle of a system inside a [`SchedulerInstaller`]: its insertion index.
#[derive(Clone, Copy, PartialEq, Eq, Structural, Debug)]
pub struct SystemId(pub usize);

/// Bit `j` of `m` is set.
pub open spec fn bit(m: u64, j: int) -> bool {
    0 <= j < 64 && (m >> (j as u64)) & 1 == 1
}

proof fn lemma_bit_zero(j: int)
    requires 0 <= j < 64,
    ensures !bit(0u64, j),
{
    let jj = j as u64;
    assert((0u64 >> jj) & 1 != 1) by (bit_vector);
}

proof fn lemma_bit_or(m: u64, k: u64, j: int)
    requires k < 64, 0 <= j < 64,
    ensures bit(m | (1u64 << k), j) == (bit(m, j) || j == k),
{
    let jj = j as u64;
    assert(((m | (1u64 << k)) >> jj) & 1 == 1 <==> ((m >> jj) & 1 == 1 || jj == k)) by (bit_vector)
        requires k < 64, jj < 64;
}

proof fn lemma_bit_and(m: u64, r: u64, j: int)
    requires 0 <= j < 64,
    ensures bit(m & r, j) == (bit(m, j) && bit(r, j)),
{
    let jj = j as u64;
    assert(((m & r) >> jj) & 1 == 1 <==> ((m >> jj) & 1 == 1 && (r >> jj) & 1 == 1)) by (bit_vector)
        requires jj < 64;
}

proof fn lemma_bit_nonzero(x: u64, j: int)
    requires bit(x, j),
    ensures x != 0,
{
    let jj = j as u64;
    assert((x >> jj) & 1 == 1 ==> x != 0) by (bit_vector);
}

/// A nonzero word has a set bit.
proof fn lemma_nonzero_bit(x: u64)
    requires x != 0,
    ensures exists|j: int| bit(x, j),
    decreases x,
{
    if x & 1 == 1 {
        assert(x >> 0u64 == x) by (bit_vector);
        assert(bit(x, 0));
    } else {
        let y = x >> 1u64;
        assert(x & 1 != 1 && x != 0 ==> (x >> 1u64) != 0 && (x >> 1u64) < x) by (bit_vector);
        lemma_nonzero_bit(y);
        let j = choose|j: int| bit(y, j);
        let jj = j as u64;
        assert(((x >> 1u64) >> jj) & 1 == 1 && jj < 64 && x & 1 != 1 ==> jj + 1 < 64 && (x >> (jj + 1)) & 1 == 1) by (bit_vector);
        assert(bit(x, j + 1));
    }
}

/// `m & r` is nonzero exactly when some bit is set in both.
pub proof fn lemma_and_nonzero(m: u64, r: u64)
    ensures (m & r != 0) == (exists|j: int| bit(m, j) && bit(r, j)),
{
    if m & r != 0 {
        lemma_nonzero_bit(m & r);
        let j = choose|j: int| bit(m & r, j);
        lemma_bit_and(m, r, j);
    }
    if exists|j: int| bit(m, j) && bit(r, j) {
        let j = choose|j: int| bit(m, j) && bit(r, j);
        lemma_bit_and(m, r, j);
        lemma_bit_nonzero(m & r, j);
    }
}

/// System `i` (in execution order) has system `j` as an upstream: some edge
/// leads from the system placed at `j` to the one placed at `i`.
pub open spec fn upstream_of(edges: Seq<(usize, usize)>, pos: Seq<usize>, i: int, j: int) -> bool {
    exists|k: int| 0 <= k < edges.len() && pos[edges[k].1 as int] == i && pos[edges[k].0 as int] == j
}

/// For each position `i` of the execution order, a mask whose bit `j` is
/// set iff the system at position `j` is an upstream of the one at `i`.
pub fn upstream_masks(n: usize, edges: &Vec<(usize, usize)>, pos: &Vec<usize>) -> (masks: Vec<u64>)
    requires
        n <= MAX_SYSTEMS,
        pos@.len() == n,
        forall|v: int| 0 <= v < n ==> pos@[v] < n,
        edges_valid(n as nat, edges@),
    ensures
        masks@.len() == n,
        forall|i: int, j: int| 0 <= i < n && 0 <= j < 64 ==>
            (bit(masks@[i], j) <==> upstream_of(edges@, pos@, i, j)),
{
    let mut masks: Vec<u64> = Vec::new();
    let mut i: usize = 0;
    while i < n
        invariant
            i <= n,
            masks@.len() == i,
            forall|a: int| 0 <= a < i ==> masks@[a] == 0,
        decreases n - i,
    {
        masks.push(0);
        i += 1;
    }
    let m = edges.len();
    let mut k: usize = 0;
    proof {
        assert forall|a: int, j: int| 0 <= a < n && 0 <= j < 64 implies !bit(masks@[a], j) by {
            lemma_bit_zero(j);
        }
    }
    while k < m
        invariant
            n <= MAX_SYSTEMS,
            m == edges@.len(),
            pos@.len() == n,
            forall|v: int| 0 <= v < n ==> pos@[v] < n,
            edges_valid(n as nat, edges@),
            k <= m,
            masks@.len() == n,
            forall|a: int, j: int| 0 <= a < n && 0 <= j < 64 ==>
                (bit(masks@[a], j) <==> exists|e: int| 0 <= e < k && pos@[edges@[e].1 as int] == a && pos@[edges@[e].0 as int] == j),
        decreases m - k,
    {
        let (up, down) = edges[k];
        let d = pos[down];
        let u = pos[up];
        let old_mask = masks[d];
        let ghost before = masks@;
        masks.set(d, old_mask | (1u64 << (u as u64)));
        proof {
            assert forall|a: int, j: int| 0 <= a < n && 0 <= j < 64 implies
                (bit(masks@[a], j) <==> exists|e: int| 0 <= e < k + 1 && pos@[edges@[e].1 as int] == a && pos@[edges@[e].0 as int] == j) by {
                if a == d as int {
                    lemma_bit_or(old_mask, u as u64, j);
                    if j == u as int {
                        assert(pos@[edges@[k as int].1 as int] == a && pos@[edges@[k as int].0 as int] == j);
                    }
                    if exists|e: int| 0 <= e < k + 1 && pos@[edges@[e].1 as int] == a && pos@[edges@[e].0 as int] == j {
                        let e = choose|e: int| 0 <= e < k + 1 && pos@[edges@[e].1 as int] == a && pos@[edges@[e].0 as int] == j;
                        if e < k {
                            assert(bit(before[a], j));
                        }
                    }
                } else {
                    if exists|e: int| 0 <= e < k + 1 && pos@[edges@[e].1 as int] == a && pos@[edges@[e].0 as int] == j {
                        let e = choose|e: int| 0 <= e < k + 1 && pos@[edges@[e].1 as int] == a && pos@[edges@[e].0 as int] == j;
                        assert(e < k);
                    }
                }
            }
        }
        k += 1;
    }
    proof {
        assert forall|i: int, j: int| 0 <= i < n && 0 <= j < 64 implies
            (bit(masks@[i], j) <==> upstream_of(edges@, pos@, i, j)) by {}
    }
    masks
}


/// Key under which the scheduler registers its [`SchedulerTick`].
pub const SCHEDULER_TICK_KEY: u64 = 0x5C4E_D71C_0000_0001;

/// Builder for a [`SystemScheduler`]: systems are added, ordering is
/// declared, and installation sorts them topologically.
#[verifier::reject_recursive_types(V)]
pub struct SchedulerInstaller<V> {
    systems: Vec<BoxedSystem<V>>,
    edges: Vec<(usize, usize)>,
}

impl<V> SchedulerInstaller<V> {
    /// The systems added, in insertion order.
    pub closed spec fn systems_view(&self) -> Seq<BoxedSystem<V>> {
        self.systems@
    }

    /// The declared edges `(upstream, downstream)`, in declaration order.
    pub closed spec fn edges_view(&self) -> Seq<(usize, usize)> {
        self.edges@
    }

    /// An empty installer.
    pub fn new() -> (r: Self)
        ensures r.systems_view().len() == 0, r.edges_view().len() == 0,
    {
        SchedulerInstaller { systems: Vec::new(), edges: Vec::new() }
    }

    /// Add a boxed system; returns its id.
    pub fn add_boxed(&mut self, system: BoxedSystem<V>) -> (id: SystemId)
        ensures
            id.0 == old(self).systems_view().len(),
            final(self).systems_view() == old(self).systems_view().push(system),
            final(self).edges_view() == old(self).edges_view(),
    {
        let id = SystemId(self.systems.len());
        self.systems.push(system);
        id
    }

    /// Add a system; returns its id.
    pub fn add<S: System<V> + 'static>(&mut self, system: S) -> (id: SystemId)
        ensures
            id.0 == old(self).systems_view().len(),
            final(self).systems_view() == old(self).systems_view().push(boxed(system)),
            final(self).edges_view() == old(self).edges_view(),
    {
        let b = BoxedSystem::new(system);
        self.add_boxed(b)
    }

    /// Declare that `downstream` runs after `upstream`.
    pub fn after(&mut self, downstream: SystemId, upstream: SystemId)
        ensures
            final(self).edges_view() == old(self).edges_view().push((upstream.0, downstream.0)),
            final(self).systems_view() == old(self).systems_view(),
    {
        self.edges.push((upstream.0, downstream.0));
    }

    /// Declare that `upstream` runs before `downstream`.
    pub fn before(&mut self, upstream: SystemId, downstream: SystemId)
        ensures
            final(self).edges_view() == old(self).edges_view().push((upstream.0, downstream.0)),
            final(self).systems_view() == old(self).systems_view(),
    {
        self.after(downstream, upstream);
    }

    /// Number of systems added.
    pub fn len(&self) -> (r: usize)
        ensures r == self.systems_view().len(),
    {
        self.systems.len()
    }

    /// What installation needs: at most [`MAX_SYSTEMS`] systems, edges
    /// between added systems, and no cycle.
    pub open spec fn installable(&self) -> bool {
        &&& self.systems_view().len() <= MAX_SYSTEMS
        &&& edges_valid(self.systems_view().len(), self.edges_view())
        &&& acyclic(self.systems_view().len(), self.edges_view())
    }

    /// Whether installation can go ahead: at most [`MAX_SYSTEMS`] systems,
    /// every edge between added systems, and no cycle.
    pub fn is_installable(&self) -> (r: bool)
        ensures r == self.installable(),
    {
        let n = self.systems.len();
        if n > MAX_SYSTEMS {
            return false;
        }
        let mut k: usize = 0;
        while k < self.edges.len()
            invariant
                k <= self.edges@.len(),
                n == self.systems_view().len(),
                forall|j: int| 0 <= j < k ==> self.edges@[j].0 < n && self.edges@[j].1 < n,
            decreases self.edges@.len() - k,
        {
            if self.edges[k].0 >= n || self.edges[k].1 >= n {
                return false;
            }
            k += 1;
        }
        match topological_order(n, &self.edges) {
            Some(order) => {
                proof {
                    lemma_topo_order_acyclic(order@, n as nat, self.edges@);
                }
                true
            },
            None => false,
        }
    }

    /// Sort the systems topologically and compute the upstream masks.
    pub fn into_scheduler(self, tick_id: ResourceId) -> (s: SystemScheduler<V>)
        requires self.installable(),
        ensures
            s.tick_id == tick_id,
            is_topo_order(s.order@, self.systems_view().len(), self.edges_view()),
            s.order@.subrange(0, sources_below(self.systems_view().len(), self.edges_view()).len() as int)
                == sources_below(self.systems_view().len(), self.edges_view()),
            in_release_order(s.order@, self.edges_view(), sources_below(self.systems_view().len(), self.edges_view()).len() as int),
            s.systems@.len() == self.systems_view().len(),
            s.masks@.len() == self.systems_view().len(),
            forall|k: int| 0 <= k < s.systems@.len() ==> s.systems@[k] == self.systems_view()[s.order@[k] as int],
            forall|i: int, j: int| 0 <= i < s.masks@.len() && 0 <= j < 64 ==>
                (bit(s.masks@[i], j) <==> j < s.masks@.len() && exists|e: int| 0 <= e < self.edges_view().len()
                    && s.order@[i] == self.edges_view()[e].1 && s.order@[j] == self.edges_view()[e].0),
    {
        let n = self.systems.len();
        let SchedulerInstaller { systems, edges } = self;
        let order = match topological_order(n, &edges) {
            Some(o) => o,
            None => { proof { assert(false); } Vec::new() },
        };
        // Inverse permutation: old position -> new position.
        let mut pos: Vec<usize> = Vec::new();
        let mut i: usize = 0;
        while i < n
            invariant i <= n, pos@.len() == i, forall|a: int| 0 <= a < i ==> pos@[a] == 0,
            decreases n - i,
        {
            pos.push(0);
            i += 1;
        }
        let mut k: usize = 0;
        while k < n
            invariant
                is_topo_order(order@, n as nat, edges@),
                k <= n,
                pos@.len() == n,
                forall|a: int| 0 <= a < k ==> pos@[order@[a] as int] == a,
                forall|v: int| 0 <= v < n ==> pos@[v] < n,
            decreases n - k,
        {
            let o = order[k];
            pos.set(o, k);
            proof {
                assert forall|a: int| 0 <= a < k implies order@[a] != o by {}
            }
            k += 1;
        }
        let masks = upstream_masks(n, &edges, &pos);
        // Move the systems into execution order.
        let ghost sys0 = systems@;
        let mut slots: Vec<Option<BoxedSystem<V>>> = Vec::new();
        let mut rev: Vec<BoxedSystem<V>> = Vec::new();
        let mut systems = systems;
        while systems.len() > 0
            invariant
                systems@.len() + rev@.len() == sys0.len(),
                forall|a: int| 0 <= a < systems@.len() ==> systems@[a] == sys0[a],
                forall|a: int| 0 <= a < rev@.len() ==> #[trigger] rev@[a] == sys0[sys0.len() - 1 - a],
            decreases systems@.len(),
        {
            let s = systems.pop().unwrap();
            rev.push(s);
        }
        while rev.len() > 0
            invariant
                rev@.len() + slots@.len() == sys0.len(),
                forall|a: int| 0 <= a < rev@.len() ==> #[trigger] rev@[a] == sys0[sys0.len() - 1 - a],
                forall|a: int| 0 <= a < slots@.len() ==> #[trigger] slots@[a] == Some(sys0[a]),
            decreases rev@.len(),
        {
            let s = rev.pop().unwrap();
            slots.push(Some(s));
        }
        let mut sorted: Vec<BoxedSystem<V>> = Vec::new();
        let mut k: usize = 0;
        while k < n
            invariant
                is_topo_order(order@, n as nat, edges@),
                n == sys0.len(),
                k <= n,
                slots@.len() == n,
                sorted@.len() == k,
                forall|a: int| 0 <= a < k ==> #[trigger] sorted@[a] == sys0[order@[a] as int],
                forall|v: int| 0 <= v < n ==> (slots@[v] is Some ==> slots@[v] == Some(sys0[v])),
                forall|a: int| k <= a < n ==> slots@[order@[a] as int] is Some,
            decreases n - k,
        {
            let o = order[k];
            let mut taken: Option<BoxedSystem<V>> = None;
            std::mem::swap(&mut taken, &mut slots[o]);
            proof {
                assert forall|a: int| k + 1 <= a < n implies slots@[order@[a] as int] is Some by {
                    assert(order@[a] != order@[k as int]);
                }
            }
            match taken {
                Some(s) => { sorted.push(s); },
                None => { proof { assert(false); } },
            }
            k += 1;
        }
        proof {
            assert forall|i: int, j: int| 0 <= i < n && 0 <= j < 64 implies
                (bit(masks@[i], j) <==> j < n && exists|e: int| 0 <= e < edges@.len()
                    && order@[i] == edges@[e].1 && order@[j] == edges@[e].0) by {
                if bit(masks@[i], j) {
                    assert(upstream_of(edges@, pos@, i, j));
                    let e = choose|e: int| 0 <= e < edges@.len() && pos@[edges@[e].1 as int] == i && pos@[edges@[e].0 as int] == j;
                    let x = edges@[e].1 as int;
                    let y = edges@[e].0 as int;
                    assert(pos@[order@[i] as int] == i);
                    lemma_pos_inverse(order@, pos@, n as nat, x);
                    lemma_pos_inverse(order@, pos@, n as nat, y);
                }
                if j < n && exists|e: int| 0 <= e < edges@.len() && order@[i] == edges@[e].1 && order@[j] == edges@[e].0 {
                    let e = choose|e: int| 0 <= e < edges@.len() && order@[i] == edges@[e].1 && order@[j] == edges@[e].0;
                    assert(pos@[order@[i] as int] == i);
                    assert(pos@[order@[j] as int] == j);
                    assert(upstream_of(edges@, pos@, i, j));
                }
            }
        }
        SystemScheduler { tick_id, systems: sorted, masks, order }
    }
}

impl<V: From<SchedulerTick>> Installer<V> for SchedulerInstaller<V> {
    type Poller = SystemScheduler<V>;

    open spec fn install_pre(&self, world: WorldBuilder<V>) -> bool {
        self.installable() && world.wf()
    }

    /// The tick is registered (keeping the builder's resources, and holding
    /// a tick at sequence 0 when it was not there) and the scheduler is
    /// [`scheduled`] from this installer.
    open spec fn installed(&self, w0: WorldBuilder<V>, w1: WorldBuilder<V>, s: SystemScheduler<V>) -> bool {
        &&& w1.wf()
        &&& s.tick_id.0 < w1.registry()@.len()
        &&& w1.registry()@[s.tick_id.0 as int] == SCHEDULER_TICK_KEY
        &&& w0.registry()@.contains(SCHEDULER_TICK_KEY) ==>
            w1.registry() == w0.registry() && w1.values_view() == w0.values_view()
        &&& !w0.registry()@.contains(SCHEDULER_TICK_KEY) ==> {
            &&& w1.registry()@ == w0.registry()@.push(SCHEDULER_TICK_KEY)
            &&& w1.values_view().len() == w0.values_view().len() + 1
            &&& w1.values_view().take(w0.values_view().len() as int) == w0.values_view()
            &&& <V as FromSpec<SchedulerTick>>::obeys_from_spec() ==> w1.values_view().last()
                == <V as FromSpec<SchedulerTick>>::from_spec(SchedulerTick(Sequence(0)))
        }
        &&& scheduled(*self, s)
    }

    /// Register the [`SchedulerTick`] (at sequence 0) unless present, then
    /// sort the systems and compute their upstream masks.
    fn install(self, world: &mut WorldBuilder<V>) -> (s: SystemScheduler<V>) {
        let tick = V::from(SchedulerTick::new());
        let ghost w0 = *world;
        let tick_id = world.ensure(SCHEDULER_TICK_KEY, tick);
        proof {
            if !w0.registry()@.contains(SCHEDULER_TICK_KEY) {
                assert(world.values_view().take(w0.values_view().len() as int) =~= w0.values_view());
            }
        }
        self.into_scheduler(tick_id)
    }
}

/// `s` is the scheduler built from `inst`: its systems in the order
/// `s.order`, which is topological, puts the sources first and takes the
/// rest in release order, with one upstream mask per position.
pub open spec fn scheduled<V>(inst: SchedulerInstaller<V>, s: SystemScheduler<V>) -> bool {
    &&& is_topo_order(s.order@, inst.systems_view().len(), inst.edges_view())
    &&& s.order@.subrange(0, sources_below(inst.systems_view().len(), inst.edges_view()).len() as int)
        == sources_below(inst.systems_view().len(), inst.edges_view())
    &&& in_release_order(s.order@, inst.edges_view(), sources_below(inst.systems_view().len(), inst.edges_view()).len() as int)
    &&& s.systems@.len() == inst.systems_view().len()
    &&& s.masks@.len() == inst.systems_view().len()
    &&& forall|k: int| 0 <= k < s.systems@.len() ==> s.systems@[k] == inst.systems_view()[s.order@[k] as int]
    &&& forall|i: int, j: int| 0 <= i < s.masks@.len() && 0 <= j < 64 ==>
        (bit(s.masks@[i], j) <==> j < s.masks@.len() && exists|e: int| 0 <= e < inst.edges_view().len()
            && s.order@[i] == inst.edges_view()[e].1 && s.order@[j] == inst.edges_view()[e].0)
}

/// Installation loses no system and invents none: each system added to the
/// installer (with [`SchedulerInstaller::add`], that is the boxed system
/// itself) stands at exactly one position of the scheduler built from it.
pub proof fn lemma_scheduled_holds_each_added<V>(inst: SchedulerInstaller<V>, s: SystemScheduler<V>, id: int)
    requires
        scheduled(inst, s),
        0 <= id < inst.systems_view().len(),
    ensures
        exists|k: int| 0 <= k < s.systems@.len() && s.order@[k] == id && #[trigger] s.systems@[k] == inst.systems_view()[id],
        forall|k1: int, k2: int| 0 <= k1 < s.order@.len() && 0 <= k2 < s.order@.len()
            && s.order@[k1] == id && s.order@[k2] == id ==> k1 == k2,
{
    let n = inst.systems_view().len();
    assert forall|a: int, b: int| 0 <= a < n && 0 <= b < n && a != b implies s.order@[a] != s.order@[b] by {
        if a < b { } else { }
    }
    lemma_injective_range(s.order@, n, id);
    let k = choose|k: int| 0 <= k < n && s.order@[k] == id;
    assert(s.systems@[k] == inst.systems_view()[id]);
    assert forall|k1: int, k2: int| 0 <= k1 < s.order@.len() && 0 <= k2 < s.order@.len()
        && s.order@[k1] == id && s.order@[k2] == id implies k1 == k2 by {
        if k1 < k2 { } else if k2 < k1 { }
    }
}

/// `pos` inverts the permutation `order`.
proof fn lemma_pos_inverse(order: Seq<usize>, pos: Seq<usize>, n: nat, x: int)
    requires
        order.len() == n,
        pos.len() == n,
        0 <= x < n,
        forall|i: int| 0 <= i < n ==> order[i] < n,
        forall|i: int, j: int| 0 <= i < j < n ==> order[i] != order[j],
        forall|a: int| 0 <= a < n ==> pos[order[a] as int] == a,
        forall|v: int| 0 <= v < n ==> pos[v] < n,
    ensures order[pos[x] as int] == x,
{
    // `order` is injective on n slots, so it hits every node below n.
    assert forall|a: int, b: int| 0 <= a < n && 0 <= b < n && a != b implies order[a] != order[b] by {
        if a < b { } else { }
    }
    lemma_injective_range(order, n, x);
    let a = choose|a: int| 0 <= a < n && order[a] == x;
    assert(pos[x] == a);
}

/// An injective map from n slots into [0, n) misses no value.
proof fn lemma_injective_range(order: Seq<usize>, n: nat, x: int)
    requires
        order.len() == n,
        0 <= x < n,
        forall|i: int| 0 <= i < n ==> order[i] < n,
        forall|a: int, b: int| 0 <= a < n && 0 <= b < n && a != b ==> order[a] != order[b],
    ensures exists|a: int| 0 <= a < n && order[a] == x,
{
    let img = Set::new(|v: int| exists|a: int| 0 <= a < n && order[a] == v);
    let dom = vstd::set_lib::set_int_range(0, n as int);
    vstd::set_lib::lemma_int_range(0, n as int);
    // The image has n elements: it is the image of the injective map.
    let ims = dom.map(|a: int| order[a] as int);
    assert forall|v: int| img.contains(v) <==> ims.contains(v) by {
        if img.contains(v) {
            let a = choose|a: int| 0 <= a < n && order[a] == v;
            assert(dom.contains(a));
        }
    }
    assert(img =~= ims);
    let f = |a: int| order[a] as int;
    assert(vstd::relations::injective_on(f, dom)) by {
        assert forall|a: int, b: int| dom.contains(a) && dom.contains(b) && #[trigger] f(a) == #[trigger] f(b) implies a == b by {
            if a != b {
                assert(order[a] != order[b]);
            }
        }
    }
    vstd::set_lib::lemma_map_size(dom, ims, f);
    if !img.contains(x) {
        assert(img.subset_of(dom.remove(x)));
        vstd::set_lib::lemma_len_subset(img, dom.remove(x));
    }
}

/// Number of `true` entries in `s`.
pub open spec fn count_true(s: Seq<bool>) -> nat
    decreases s.len(),
{
    if s.len() == 0 { 0 } else { count_true(s.drop_last()) + (if s.last() { 1nat } else { 0nat }) }
}

/// The propagation rule for the system at a position with upstream mask
/// `mask`, given which earlier systems ran (`ran`) and what they returned
/// (`ret`): a root always runs; any other system runs iff some upstream ran
/// and returned `true`.
pub open spec fn runs(mask: u64, ran: Seq<bool>, ret: Seq<bool>) -> bool {
    mask == 0 || exists|j: int| 0 <= j < ran.len() && bit(mask, j) && ran[j] && ret[j]
}

/// Runs systems in topological order with boolean propagation.
#[verifier::reject_recursive_types(V)]
pub struct SystemScheduler<V> {
    /// Id of the [`SchedulerTick`] resource.
    pub tick_id: ResourceId,
    /// The systems, in execution order.
    pub systems: Vec<BoxedSystem<V>>,
    /// Per position: bit `j` set iff the system at position `j` is upstream.
    pub masks: Vec<u64>,
    /// Execution order: the insertion index of the system at each position.
    pub order: Vec<usize>,
}

impl<V> SystemScheduler<V> {
    /// Number of systems.
    pub fn len(&self) -> (r: usize)
        ensures r == self.systems@.len(),
    {
        self.systems.len()
    }

    /// Returns `true` if there are no systems.
    pub fn is_empty(&self) -> (r: bool)
        ensures r == (self.systems@.len() == 0),
    {
        self.systems.len() == 0
    }

    /// Run one pass: each system in order runs iff [`runs`] holds for it;
    /// afterwards the [`SchedulerTick`] resource is set to the current
    /// sequence. Returns the number of systems that ran.
    pub fn run(&mut self, world: &mut World<V>) -> (count: usize)
        where V: From<SchedulerTick>,
        requires
            old(self).systems@.len() == old(self).masks@.len(),
            old(self).systems@.len() <= MAX_SYSTEMS,
            old(world)@.has(old(self).tick_id),
            forall|i: int, w: World<V>| 0 <= i < old(self).systems@.len() && w@.keys == old(world)@.keys
                ==> #[trigger] old(self).systems@[i].0.s_pre(w),
        ensures
            final(self).masks == old(self).masks,
            final(self).tick_id == old(self).tick_id,
            final(self).order == old(self).order,
            final(self).systems@.len() == old(self).systems@.len(),
            final(world)@.keys == old(world)@.keys,
            exists|wp: World<V>| #[trigger] pass_outcome(old(self).masks@, old(self).systems@, final(self).systems@, count, *old(world), wp)
                && final(world)@ == wp@.write(old(self).tick_id, final(world)@.values[old(self).tick_id.0 as int]),
            final(world)@.seq == old(world)@.seq,
            final(world)@.changed[old(self).tick_id.0 as int] == final(world)@.seq,
            <V as FromSpec<SchedulerTick>>::obeys_from_spec() ==> final(world)@.values[old(self).tick_id.0 as int]
                == <V as FromSpec<SchedulerTick>>::from_spec(SchedulerTick(Sequence(final(world)@.seq))),
    {
        let n = self.systems.len();
        let mut ran_count: usize = 0;
        let mut results: u64 = 0;
        let ghost mut ran: Seq<bool> = Seq::empty();
        let ghost mut ret: Seq<bool> = Seq::empty();
        let ghost mut ws: Seq<World<V>> = seq![*world];
        let ghost sys0 = self.systems@;
        let ghost keys0 = world@.keys;
        proof {
            assert forall|j: int| 0 <= j < 64 implies (bit(results, j) <==> (j < 0 && ran[j] && ret[j])) by {
                lemma_bit_zero(j);
            }
        }
        let mut i: usize = 0;
        while i < n
            invariant
                n == sys0.len(),
                n <= MAX_SYSTEMS,
                self.masks == old(self).masks,
                self.tick_id == old(self).tick_id,
                self.order == old(self).order,
                self.masks@.len() == n,
                sys0 == old(self).systems@,
                self.systems@.len() == n,
                world@.keys == keys0,
                keys0 == old(world)@.keys,
                world@.seq == old(world)@.seq,
                world@.has(self.tick_id),
                i <= n,
                results_mask(results, i as int, ran, ret),
                partial_pass(self.masks@, sys0, self.systems@, ran, ret, ws, i as int),
                ws[0] == *old(world),
                ws[i as int] == *world,
                ran_count == count_true(ran),
                ran_count <= i,
                forall|a: int, w: World<V>| 0 <= a < n && w@.keys == keys0 ==> #[trigger] sys0[a].0.s_pre(w),
            decreases n - i,
        {
            let mask = self.masks[i];
            let go = mask == 0 || (mask & results) != 0;
            proof {
                lemma_go(mask, results, i as int, ran, ret);
            }
            if go {
                let ghost wa = *world;
                assert(sys0[i as int].0.s_pre(wa));
                let r = self.systems[i].0.run(world);
                proof {
                    lemma_ran_true(self.masks@, sys0, self.systems@, ran, ret, ws, *world, i as int, r, results);
                    let ghost ran0 = ran;
                    ran = ran.push(true);
                    ret = ret.push(r);
                    ws = ws.push(*world);
                    assert(ran.drop_last() =~= ran0);
                }
                if r {
                    results = results | (1u64 << (i as u64));
                }
                ran_count += 1;
            } else {
                proof {
                    lemma_ran_false(self.masks@, sys0, self.systems@, ran, ret, ws, i as int, results);
                    let ghost ran0 = ran;
                    ran = ran.push(false);
                    ret = ret.push(false);
                    ws = ws.push(ws[i as int]);
                    assert(ran.drop_last() =~= ran0);
                }
            }
            i += 1;
        }
        let ghost wp = *world;
        proof {
            assert(pass_outcome(old(self).masks@, sys0, self.systems@, ran_count, *old(world), wp)) by {
                assert(partial_pass(self.masks@, sys0, self.systems@, ran, ret, ws, n as int));
            }
        }
        let seq = world.current_sequence();
        let tick = V::from(SchedulerTick(seq));
        proof {
            world.lemma_lens();
        }
        world.set(self.tick_id, tick);
        proof {
            assert(world@ == wp@.write(self.tick_id, world@.values[self.tick_id.0 as int]));
        }
        ran_count
    }
}

/// `results` has bit `j` set exactly for the first `i` systems that ran and
/// returned `true`.
pub open spec fn results_mask(results: u64, i: int, ran: Seq<bool>, ret: Seq<bool>) -> bool {
    &&& ran.len() == i
    &&& ret.len() == i
    &&& forall|j: int| 0 <= j < 64 ==> (bit(results, j) <==> (j < i && ran[j] && ret[j]))
}

/// The first `i` systems of a pass: `ran` says which ran (by the
/// propagation rule), `ret` what each that ran returned; those that did
/// not run are untouched, the later ones are untouched too.
pub open spec fn partial_pass<V>(
    masks: Seq<u64>,
    before: Seq<BoxedSystem<V>>,
    after: Seq<BoxedSystem<V>>,
    ran: Seq<bool>,
    ret: Seq<bool>,
    ws: Seq<World<V>>,
    i: int,
) -> bool {
    &&& ran.len() == i
    &&& ret.len() == i
    &&& ws.len() == i + 1
    &&& after.len() == before.len()
    &&& forall|a: int| 0 <= a < i ==> #[trigger] ran[a] == runs(masks[a], ran.take(a), ret.take(a))
    &&& forall|a: int| 0 <= a < i && !ran[a] ==> #[trigger] after[a] == before[a]
    &&& forall|a: int| 0 <= a < i && !ran[a] ==> !ret[a]
    &&& forall|a: int| #![trigger ret[a]] 0 <= a < i ==> if ran[a] {
            before[a].0.s_rel(ws[a], ws[a + 1], ret[a]) && advanced(before[a], after[a], ws[a], ws[a + 1], ret[a])
        } else {
            ws[a + 1] == ws[a]
        }
    &&& forall|a: int| i <= a < before.len() ==> after[a] == before[a]
}

/// Outcome of a whole pass over the systems `before` (leaving `after`),
/// taking the world from `w0` to `w1`: some choice of which systems ran and
/// what they returned follows the propagation rule, a chain of worlds links
/// the runs (a system that did not run leaves the world as it was), and
/// `count` systems ran.
pub open spec fn pass_outcome<V>(
    masks: Seq<u64>,
    before: Seq<BoxedSystem<V>>,
    after: Seq<BoxedSystem<V>>,
    count: usize,
    w0: World<V>,
    w1: World<V>,
) -> bool {
    exists|ran: Seq<bool>, ret: Seq<bool>, ws: Seq<World<V>>|
        #[trigger] partial_pass(masks, before, after, ran, ret, ws, before.len() as int)
            && count == count_true(ran)
            && ws[0] == w0
            && ws[before.len() as int] == w1
}

/// A pass never swaps a system for another: each system after the pass is
/// the one that was there, untouched if it did not run, and otherwise
/// advanced by its own run (see [`advanced`]).
pub proof fn lemma_pass_keeps_systems<V>(
    masks: Seq<u64>,
    before: Seq<BoxedSystem<V>>,
    after: Seq<BoxedSystem<V>>,
    count: usize,
    w0: World<V>,
    w1: World<V>,
    a: int,
)
    requires
        pass_outcome(masks, before, after, count, w0, w1),
        0 <= a < before.len(),
    ensures
        after.len() == before.len(),
        after[a] == before[a] || exists|x: World<V>, y: World<V>, r: bool| #[trigger] advanced(before[a], after[a], x, y, r),
{
    let (ran, ret, ws) = choose|ran: Seq<bool>, ret: Seq<bool>, ws: Seq<World<V>>|
        #[trigger] partial_pass(masks, before, after, ran, ret, ws, before.len() as int)
            && count == count_true(ran) && ws[0] == w0 && ws[before.len() as int] == w1;
    if ran[a] {
        assert(before[a].0.s_rel(ws[a], ws[a + 1], ret[a]) && advanced(before[a], after[a], ws[a], ws[a + 1], ret[a]));
    }
}

/// A system that never propagates and keeps its contract across runs has,
/// after a pass, the contract it had: it still never propagates, so by
/// [`lemma_pass_skips_behind_silent`] the systems behind it alone stay
/// skipped on the next pass too.
pub proof fn lemma_pass_keeps_silent<V>(
    masks: Seq<u64>,
    before: Seq<BoxedSystem<V>>,
    after: Seq<BoxedSystem<V>>,
    count: usize,
    w0: World<V>,
    w1: World<V>,
    a: int,
)
    requires
        pass_outcome(masks, before, after, count, w0, w1),
        0 <= a < before.len(),
        silent(before[a]),
        keeps_contract(before[a]),
    ensures
        silent(after[a]),
        forall|w: World<V>| #[trigger] after[a].0.s_pre(w) == before[a].0.s_pre(w),
        forall|p: World<V>, q: World<V>, c: bool| #[trigger] after[a].0.s_rel(p, q, c) == before[a].0.s_rel(p, q, c),
{
    lemma_pass_keeps_systems(masks, before, after, count, w0, w1, a);
    if after[a] != before[a] {
        let (x, y, r) = choose|x: World<V>, y: World<V>, r: bool| #[trigger] advanced(before[a], after[a], x, y, r);
        let np = |w: World<V>| after[a].0.s_pre(w);
        let nr = |p: World<V>, q: World<V>, c: bool| after[a].0.s_rel(p, q, c);
        assert(before[a].0.s_next(x, y, r, np, nr));
        assert forall|w: World<V>| #[trigger] after[a].0.s_pre(w) == before[a].0.s_pre(w) by {
            assert(np(w) == after[a].0.s_pre(w));
        }
        assert forall|p: World<V>, q: World<V>, c: bool| #[trigger] after[a].0.s_rel(p, q, c) == before[a].0.s_rel(p, q, c) by {
            assert(nr(p, q, c) == after[a].0.s_rel(p, q, c));
        }
        assert forall|p: World<V>, q: World<V>, c: bool| #[trigger] after[a].0.s_rel(p, q, c) implies !c by {
            assert(before[a].0.s_rel(p, q, c));
        }
    }
}

/// In a pass, a system all of whose upstreams never propagate does not run
/// (unless it is a root) and is left as it was.
pub proof fn lemma_pass_skips_behind_silent<V>(
    masks: Seq<u64>,
    before: Seq<BoxedSystem<V>>,
    after: Seq<BoxedSystem<V>>,
    count: usize,
    w0: World<V>,
    w1: World<V>,
    a: int,
)
    requires
        pass_outcome(masks, before, after, count, w0, w1),
        0 <= a < before.len(),
        masks[a] != 0,
        forall|j: int| 0 <= j < a && bit(masks[a], j) ==> silent(#[trigger] before[j]),
    ensures
        after[a] == before[a],
{
    let (ran, ret, ws) = choose|ran: Seq<bool>, ret: Seq<bool>, ws: Seq<World<V>>|
        #[trigger] partial_pass(masks, before, after, ran, ret, ws, before.len() as int)
            && count == count_true(ran) && ws[0] == w0 && ws[before.len() as int] == w1;
    assert(ran[a] == runs(masks[a], ran.take(a), ret.take(a)));
    if ran[a] {
        let j = choose|j: int| 0 <= j < ran.take(a).len() && bit(masks[a], j) && ran.take(a)[j] && ret.take(a)[j];
        assert(ran[j] && ret[j]);
        assert(before[j].0.s_rel(ws[j], ws[j + 1], ret[j]));
        assert(silent(before[j]));
    }
}

proof fn lemma_go(mask: u64, results: u64, i: int, ran: Seq<bool>, ret: Seq<bool>)
    requires results_mask(results, i, ran, ret),
    ensures (mask == 0 || mask & results != 0) == runs(mask, ran, ret),
{
    lemma_and_nonzero(mask, results);
    if exists|j: int| bit(mask, j) && bit(results, j) {
        let j = choose|j: int| bit(mask, j) && bit(results, j);
        assert(0 <= j < ran.len() && bit(mask, j) && ran[j] && ret[j]);
    }
    if exists|j: int| 0 <= j < ran.len() && bit(mask, j) && ran[j] && ret[j] {
        let j = choose|j: int| 0 <= j < ran.len() && bit(mask, j) && ran[j] && ret[j];
        assert(bit(mask, j) && bit(results, j));
    }
}

proof fn lemma_ran_true<V>(
    masks: Seq<u64>,
    before: Seq<BoxedSystem<V>>,
    after: Seq<BoxedSystem<V>>,
    ran: Seq<bool>,
    ret: Seq<bool>,
    ws: Seq<World<V>>,
    w1: World<V>,
    i: int,
    r: bool,
    results: u64,
)
    requires
        0 <= i < 64,
        i < before.len(),
        partial_pass(masks, before, after.update(i, before[i]), ran, ret, ws, i),
        after.len() == before.len(),
        runs(masks[i], ran, ret),
        before[i].0.s_rel(ws[i], w1, r),
        advanced(before[i], after[i], ws[i], w1, r),
        results_mask(results, i, ran, ret),
    ensures
        partial_pass(masks, before, after, ran.push(true), ret.push(r), ws.push(w1), i + 1),
        results_mask(if r { results | (1u64 << (i as u64)) } else { results }, i + 1, ran.push(true), ret.push(r)),
{
    let ran1 = ran.push(true);
    let ret1 = ret.push(r);
    assert forall|a: int| 0 <= a < i + 1 implies #[trigger] ran1[a] == runs(masks[a], ran1.take(a), ret1.take(a)) by {
        if a < i {
            assert(ran1.take(a) =~= ran.take(a));
            assert(ret1.take(a) =~= ret.take(a));
        } else {
            assert(ran1.take(a) =~= ran);
            assert(ret1.take(a) =~= ret);
        }
    }
    assert forall|a: int| 0 <= a < i + 1 && !ran1[a] implies #[trigger] after[a] == before[a] by {
        assert(after.update(i, before[i])[a] == before[a]);
    }
    assert forall|a: int| i + 1 <= a < before.len() implies after[a] == before[a] by {
        assert(after.update(i, before[i])[a] == before[a]);
    }
    assert forall|a: int| 0 <= a < i + 1 && !ran1[a] implies !ret1[a] by {}
    let ws1 = ws.push(w1);
    assert forall|a: int| #![trigger ret1[a]] 0 <= a < i + 1 implies if ran1[a] {
            before[a].0.s_rel(ws1[a], ws1[a + 1], ret1[a]) && advanced(before[a], after[a], ws1[a], ws1[a + 1], ret1[a])
        } else {
            ws1[a + 1] == ws1[a]
        } by {
        if a == i {
            assert(ret1[a] == r);
        } else {
            assert(after.update(i, before[i])[a] == after[a]);
            assert(ret1[a] == ret[a]);
            assert(ran1[a] == ran[a]);
            assert(ws1[a] == ws[a] && ws1[a + 1] == ws[a + 1]);
        }
    }
    if !r {
        assert forall|j: int| 0 <= j < 64 implies (bit(results, j) <==> (j < i + 1 && ran1[j] && ret1[j])) by {
            if j < i {
                assert(ran1[j] == ran[j] && ret1[j] == ret[j]);
            }
        }
    }
    if r {
        let nr = results | (1u64 << (i as u64));
        assert forall|j: int| 0 <= j < 64 implies (bit(nr, j) <==> (j < i + 1 && ran1[j] && ret1[j])) by {
            lemma_bit_or(results, i as u64, j);
            if j < i {
                assert(ran1[j] == ran[j] && ret1[j] == ret[j]);
            }
        }
        assert(results_mask(nr, i + 1, ran1, ret1));
    }
}

proof fn lemma_ran_false<V>(
    masks: Seq<u64>,
    before: Seq<BoxedSystem<V>>,
    after: Seq<BoxedSystem<V>>,
    ran: Seq<bool>,
    ret: Seq<bool>,
    ws: Seq<World<V>>,
    i: int,
    results: u64,
)
    requires
        0 <= i < before.len(),
        partial_pass(masks, before, after, ran, ret, ws, i),
        !runs(masks[i], ran, ret),
        results_mask(results, i, ran, ret),
    ensures
        partial_pass(masks, before, after, ran.push(false), ret.push(false), ws.push(ws[i]), i + 1),
        results_mask(results, i + 1, ran.push(false), ret.push(false)),
{
    let ran1 = ran.push(false);
    let ret1 = ret.push(false);
    assert forall|a: int| 0 <= a < i + 1 implies #[trigger] ran1[a] == runs(masks[a], ran1.take(a), ret1.take(a)) by {
        if a < i {
            assert(ran1.take(a) =~= ran.take(a));
            assert(ret1.take(a) =~= ret.take(a));
        } else {
            assert(ran1.take(a) =~= ran);
            assert(ret1.take(a) =~= ret);
        }
    }
    let ws1 = ws.push(ws[i]);
    assert forall|a: int| #![trigger ret1[a]] 0 <= a < i + 1 implies if ran1[a] {
            before[a].0.s_rel(ws1[a], ws1[a + 1], ret1[a]) && advanced(before[a], after[a], ws1[a], ws1[a + 1], ret1[a])
        } else {
            ws1[a + 1] == ws1[a]
        } by {
        if a < i {
            assert(ret1[a] == ret[a]);
            assert(ran1[a] == ran[a]);
            assert(ws1[a] == ws[a] && ws1[a + 1] == ws[a + 1]);
        }
    }
    assert forall|a: int| 0 <= a < i + 1 && !ran1[a] implies #[trigger] after[a] == before[a] by {
        if a < i { assert(ran1[a] == ran[a]); }
    }
    assert forall|a: int| 0 <= a < i + 1 && !ran1[a] implies !ret1[a] by {
        if a < i { assert(ran1[a] == ran[a]); }
    }
    assert forall|j: int| 0 <= j < 64 implies (bit(results, j) <==> (j < i + 1 && ran1[j] && ret1[j])) by {
        if j < i {
            assert(ran1[j] == ran[j] && ret1[j] == ret[j]);
        }
    }
}

} // verus!
