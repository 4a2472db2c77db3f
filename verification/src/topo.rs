//! Topological ordering of a dependency graph (Kahn's algorithm with a
//! FIFO queue, so ties are broken by insertion order).
use vstd::prelude::*;
use vstd::set_lib::{set_int_range, lemma_int_range, lemma_len_subset};
use std::collections::VecDeque;

verus! {

/// Every edge `(upstream, downstream)` names nodes below `n`.
pub open spec fn edges_valid(n: nat, edges: Seq<(usize, usize)>) -> bool {
    forall|k: int| 0 <= k < edges.len() ==> edges[k].0 < n && edges[k].1 < n
}

/// A ranking of the `n` nodes that every edge climbs.
pub open spec fn is_ranking(rank: Seq<nat>, n: nat, edges: Seq<(usize, usize)>) -> bool {
    &&& rank.len() == n
    &&& forall|k: int| 0 <= k < edges.len() ==> rank[edges[k].0 as int] < rank[edges[k].1 as int]
}

/// The graph has no cycle: some ranking of its nodes is climbed by every
/// edge.
pub open spec fn acyclic(n: nat, edges: Seq<(usize, usize)>) -> bool {
    exists|rank: Seq<nat>| is_ranking(rank, n, edges)
}

/// `order` lists each of the `n` nodes exactly once, every edge's upstream
/// before its downstream.
pub open spec fn is_topo_order(order: Seq<usize>, n: nat, edges: Seq<(usize, usize)>) -> bool {
    &&& order.len() == n
    &&& forall|i: int| 0 <= i < order.len() ==> order[i] < n
    &&& forall|i: int, j: int| 0 <= i < j < order.len() ==> order[i] != order[j]
    &&& forall|k: int| 0 <= k < edges.len() ==> #[trigger] edge_ordered(order, edges[k])
}

/// Edge `e`'s upstream occurs before its downstream in `order`.
pub open spec fn edge_ordered(order: Seq<usize>, e: (usize, usize)) -> bool {
    exists|i: int, j: int| 0 <= i < j < order.len() && order[i] == e.0 && order[j] == e.1
}

/// No edge enters `v`.
pub open spec fn is_source(v: usize, edges: Seq<(usize, usize)>) -> bool {
    forall|k: int| 0 <= k < edges.len() ==> #[trigger] edges[k].1 != v
}

/// The nodes below `k` that no edge enters, in increasing order.
pub open spec fn sources_below(k: nat, edges: Seq<(usize, usize)>) -> Seq<usize>
    decreases k,
{
    if k == 0 {
        Seq::empty()
    } else {
        let pre = sources_below((k - 1) as nat, edges);
        if is_source((k - 1) as usize, edges) { pre.push((k - 1) as usize) } else { pre }
    }
}

/// `v` occurs in `order` at or before position `i`.
pub open spec fn placed_by(order: Seq<usize>, v: usize, i: int) -> bool {
    exists|j: int| 0 <= j <= i && order[j] == v
}

/// In `order`, node `x` is released at position `i` by edge `e`: edge `e`
/// runs from `order[i]` to `x`, every edge into `x` leaves a node placed at
/// or before `i`, and no later edge runs from `order[i]` to `x`. This is
/// the moment Kahn's algorithm queues `x`.
pub open spec fn released_at(order: Seq<usize>, edges: Seq<(usize, usize)>, x: usize, i: int, e: int) -> bool {
    &&& 0 <= i < order.len()
    &&& 0 <= e < edges.len()
    &&& edges[e].0 == order[i]
    &&& edges[e].1 == x
    &&& forall|f: int| 0 <= f < edges.len() && (#[trigger] edges[f]).1 == x ==> placed_by(order, edges[f].0, i)
    &&& forall|f: int| e < f < edges.len() ==> !((#[trigger] edges[f]).0 == order[i] && edges[f].1 == x)
}

/// `x` is released somewhere in `order`.
pub open spec fn has_release(order: Seq<usize>, edges: Seq<(usize, usize)>, x: usize) -> bool {
    exists|i: int, e: int| released_at(order, edges, x, i, e)
}

/// After the first `s` nodes, every node of `order` is released by an
/// earlier one, and the nodes come in the order of their releases (by
/// releasing position, then by edge): ties between nodes that become ready
/// together are broken by the order in which their edges were added.
pub open spec fn in_release_order(order: Seq<usize>, edges: Seq<(usize, usize)>, s: int) -> bool {
    &&& forall|a: int| s <= a < order.len() ==> #[trigger] has_release(order, edges, order[a])
    &&& forall|a: int, b: int, i: int, e: int, i2: int, e2: int|
        #![trigger released_at(order, edges, order[a], i, e), released_at(order, edges, order[b], i2, e2)]
        s <= a < b < order.len() && released_at(order, edges, order[a], i, e)
            && released_at(order, edges, order[b], i2, e2) ==> i < i2 || (i == i2 && e < e2)
}

/// A release in `order` stays one as `order` grows.
proof fn lemma_released_grow(order: Seq<usize>, order2: Seq<usize>, edges: Seq<(usize, usize)>, x: usize, i: int, e: int)
    requires
        released_at(order, edges, x, i, e),
        order.len() <= order2.len(),
        order2.subrange(0, order.len() as int) == order,
    ensures released_at(order2, edges, x, i, e),
{
    assert(order2[i] == order[i]);
    assert forall|f: int| 0 <= f < edges.len() && (#[trigger] edges[f]).1 == x implies placed_by(order2, edges[f].0, i) by {
        assert(placed_by(order, edges[f].0, i));
        let j = choose|j: int| 0 <= j <= i && order[j] == edges[f].0;
        assert(order2[j] == order[j]);
    }
}

/// In an order without repeats, a node has at most one release.
proof fn lemma_release_unique(order: Seq<usize>, edges: Seq<(usize, usize)>, x: usize, i: int, e: int, i2: int, e2: int)
    requires
        forall|a: int, b: int| 0 <= a < b < order.len() ==> order[a] != order[b],
        released_at(order, edges, x, i, e),
        released_at(order, edges, x, i2, e2),
    ensures i == i2, e == e2,
{
    assert(edges[e].1 == x);
    assert(placed_by(order, edges[e].0, i2));
    let j = choose|j: int| 0 <= j <= i2 && order[j] == edges[e].0;
    assert(j == i) by {
        if j < i { assert(order[j] != order[i]); } else if j > i { assert(order[i] != order[j]); }
    }
    assert(edges[e2].1 == x);
    assert(placed_by(order, edges[e2].0, i));
    let j2 = choose|j2: int| 0 <= j2 <= i && order[j2] == edges[e2].0;
    assert(j2 == i2) by {
        if j2 < i2 { assert(order[j2] != order[i2]); } else if j2 > i2 { assert(order[i2] != order[j2]); }
    }
    if e < e2 {
        assert(!(edges[e2].0 == order[i] && edges[e2].1 == x));
    } else if e2 < e {
        assert(!(edges[e].0 == order[i2] && edges[e].1 == x));
    }
}

/// Number of edges among the first `len` that enter `v` from a node not
/// yet placed (`rk < 0`).
pub open spec fn live_into(edges: Seq<(usize, usize)>, v: usize, rk: Seq<int>, len: int) -> nat
    decreases len,
{
    if len <= 0 {
        0
    } else {
        live_into(edges, v, rk, len - 1)
            + (if edges[len - 1].1 == v && rk[edges[len - 1].0 as int] < 0 { 1nat } else { 0nat })
    }
}

/// Like [`live_into`], but the edges leaving `u` with index below `k` are
/// no longer counted.
pub open spec fn live_into_skip(edges: Seq<(usize, usize)>, v: usize, rk: Seq<int>, u: usize, k: int, len: int) -> nat
    decreases len,
{
    if len <= 0 {
        0
    } else {
        live_into_skip(edges, v, rk, u, k, len - 1)
            + (if edges[len - 1].1 == v && rk[edges[len - 1].0 as int] < 0 && !(edges[len - 1].0 == u && len - 1 < k) {
                1nat
            } else {
                0nat
            })
    }
}

proof fn lemma_live_bound(edges: Seq<(usize, usize)>, v: usize, rk: Seq<int>, len: int)
    requires len >= 0,
    ensures live_into(edges, v, rk, len) <= len,
    decreases len,
{
    if len > 0 {
        lemma_live_bound(edges, v, rk, len - 1);
    }
}

proof fn lemma_skip_zero(edges: Seq<(usize, usize)>, v: usize, rk: Seq<int>, u: usize, len: int)
    ensures live_into_skip(edges, v, rk, u, 0, len) == live_into(edges, v, rk, len),
    decreases len,
{
    if len > 0 {
        lemma_skip_zero(edges, v, rk, u, len - 1);
    }
}

proof fn lemma_skip_step(edges: Seq<(usize, usize)>, v: usize, rk: Seq<int>, u: usize, k: int, len: int)
    requires 0 <= k < len,
    ensures
        live_into_skip(edges, v, rk, u, k + 1, len) + (if edges[k].0 == u && edges[k].1 == v && rk[u as int] < 0 { 1int } else { 0int })
            == live_into_skip(edges, v, rk, u, k, len),
    decreases len,
{
    if len - 1 > k {
        lemma_skip_step(edges, v, rk, u, k, len - 1);
    } else {
        lemma_skip_same(edges, v, rk, u, k, k + 1, len - 1);
    }
}

proof fn lemma_skip_same(edges: Seq<(usize, usize)>, v: usize, rk: Seq<int>, u: usize, k1: int, k2: int, len: int)
    requires len <= k1, len <= k2,
    ensures live_into_skip(edges, v, rk, u, k1, len) == live_into_skip(edges, v, rk, u, k2, len),
    decreases len,
{
    if len > 0 {
        lemma_skip_same(edges, v, rk, u, k1, k2, len - 1);
    }
}

proof fn lemma_skip_pos(edges: Seq<(usize, usize)>, v: usize, rk: Seq<int>, u: usize, k: int, len: int)
    requires 0 <= k < len, edges[k].0 == u, edges[k].1 == v, rk[u as int] < 0,
    ensures live_into_skip(edges, v, rk, u, k, len) >= 1,
    decreases len,
{
    if len - 1 > k {
        lemma_skip_pos(edges, v, rk, u, k, len - 1);
    }
}

proof fn lemma_skip_done(edges: Seq<(usize, usize)>, v: usize, rk0: Seq<int>, u: usize, p: int, len: int)
    requires
        0 <= u < rk0.len(),
        rk0[u as int] < 0,
        p >= 0,
        len <= edges.len(),
        forall|k: int| 0 <= k < len ==> edges[k].0 < rk0.len(),
    ensures
        live_into_skip(edges, v, rk0, u, len, len) == live_into(edges, v, rk0.update(u as int, p), len),
    decreases len,
{
    if len > 0 {
        lemma_skip_done(edges, v, rk0, u, p, len - 1);
        lemma_skip_same(edges, v, rk0, u, len, len - 1, len - 1);
    }
}

proof fn lemma_live_zero(edges: Seq<(usize, usize)>, v: usize, rk: Seq<int>, len: int)
    requires live_into(edges, v, rk, len) == 0, len <= edges.len(),
    ensures forall|k: int| 0 <= k < len && edges[k].1 == v ==> rk[edges[k].0 as int] >= 0,
    decreases len,
{
    if len > 0 {
        lemma_live_zero(edges, v, rk, len - 1);
    }
}

proof fn lemma_skip_zero_all(edges: Seq<(usize, usize)>, v: usize, rk: Seq<int>, u: usize, k: int, len: int)
    requires live_into_skip(edges, v, rk, u, k, len) == 0, len <= edges.len(),
    ensures
        forall|f: int| 0 <= f < len && (#[trigger] edges[f]).1 == v ==> rk[edges[f].0 as int] >= 0 || (edges[f].0 == u && f < k),
    decreases len,
{
    if len > 0 {
        lemma_skip_zero_all(edges, v, rk, u, k, len - 1);
    }
}

proof fn lemma_live_pos(edges: Seq<(usize, usize)>, v: usize, rk: Seq<int>, len: int)
    requires live_into(edges, v, rk, len) > 0, len <= edges.len(),
    ensures exists|k: int| 0 <= k < len && edges[k].1 == v && rk[edges[k].0 as int] < 0,
    decreases len,
{
    if len > 0 {
        if !(edges[len - 1].1 == v && rk[edges[len - 1].0 as int] < 0) {
            lemma_live_pos(edges, v, rk, len - 1);
        }
    }
}

proof fn lemma_live_same(edges: Seq<(usize, usize)>, v: usize, rk1: Seq<int>, rk2: Seq<int>, len: int)
    requires
        len <= edges.len(),
        forall|k: int| 0 <= k < len ==> (rk1[edges[k].0 as int] < 0) == (rk2[edges[k].0 as int] < 0),
    ensures live_into(edges, v, rk1, len) == live_into(edges, v, rk2, len),
    decreases len,
{
    if len > 0 {
        lemma_live_same(edges, v, rk1, rk2, len - 1);
    }
}

/// If every unplaced node has an unplaced predecessor of lower rank, no
/// unplaced node has rank below `b`.
proof fn lemma_descent(rank: Seq<nat>, rk: Seq<int>, n: nat, b: nat)
    requires
        rank.len() == n,
        rk.len() == n,
        forall|v: int| 0 <= v < n && rk[v] < 0 ==> exists|x: int| 0 <= x < n && rk[x] < 0 && rank[x] < rank[v],
    ensures forall|v: int| 0 <= v < n && rk[v] < 0 ==> rank[v] >= b,
    decreases b,
{
    if b > 0 {
        lemma_descent(rank, rk, n, (b - 1) as nat);
    }
}

/// `n` distinct values below `n` cover every value below `n`.
proof fn lemma_covers(o: Seq<usize>, n: nat, v: int)
    requires
        o.len() == n,
        forall|i: int| 0 <= i < o.len() ==> o[i] < n,
        forall|i: int, j: int| 0 <= i < j < o.len() ==> o[i] != o[j],
        0 <= v < n,
    ensures exists|j: int| 0 <= j < o.len() && o[j] == v,
{
    if !(exists|j: int| 0 <= j < o.len() && o[j] == v) {
        let m = o.map_values(|x: usize| x as int);
        assert(m.no_duplicates()) by {
            assert forall|i: int, j: int| 0 <= i < m.len() && 0 <= j < m.len() && i != j implies m[i] != m[j] by {
                if i < j { assert(o[i] != o[j]); } else { assert(o[j] != o[i]); }
            }
        }
        m.unique_seq_to_set();
        lemma_int_range(0, n as int);
        assert(m.to_set().subset_of(set_int_range(0, n as int).remove(v))) by {
            assert forall|x: int| m.to_set().contains(x) implies set_int_range(0, n as int).remove(v).contains(x) by {
                let i = choose|i: int| 0 <= i < m.len() && m[i] == x;
                assert(o[i] as int == x);
            }
        }
        lemma_len_subset(m.to_set(), set_int_range(0, n as int).remove(v));
    }
}

/// There are at most `k` sources below `k`.
proof fn lemma_sources_len(k: nat, edges: Seq<(usize, usize)>)
    ensures sources_below(k, edges).len() <= k,
    decreases k,
{
    if k > 0 {
        lemma_sources_len((k - 1) as nat, edges);
    }
}

/// A graph with a topological order has no cycle: positions in the order
/// rank the nodes, and every edge climbs them.
pub proof fn lemma_topo_order_acyclic(order: Seq<usize>, n: nat, edges: Seq<(usize, usize)>)
    requires is_topo_order(order, n, edges),
    ensures acyclic(n, edges),
{
    let rank = Seq::new(n, |v: int| (choose|i: int| 0 <= i < order.len() && order[i] == v) as nat);
    assert forall|v: int| 0 <= v < n implies 0 <= #[trigger] rank[v] < n && order[rank[v] as int] == v by {
        lemma_covers(order, n, v);
    }
    assert forall|k: int| 0 <= k < edges.len() implies rank[edges[k].0 as int] < rank[edges[k].1 as int] by {
        assert(edge_ordered(order, edges[k]));
        let (i, j) = choose|i: int, j: int| 0 <= i < j < order.len() && order[i] == edges[k].0 && order[j] == edges[k].1;
        let a = rank[edges[k].0 as int] as int;
        let b = rank[edges[k].1 as int] as int;
        assert(order[a] == edges[k].0 && order[b] == edges[k].1);
        if a != i { if a < i { assert(order[a] != order[i]); } else { assert(order[i] != order[a]); } }
        if b != j { if b < j { assert(order[b] != order[j]); } else { assert(order[j] != order[b]); } }
    }
    assert(is_ranking(rank, n, edges));
}

/// Determinism of the scheduler's order: the graph fixes it. Two orders of
/// the same nodes that both list every edge's upstream first, start with
/// the sources in index order, and take the rest in release order are the
/// same order.
pub proof fn lemma_release_order_unique(n: nat, edges: Seq<(usize, usize)>, o1: Seq<usize>, o2: Seq<usize>)
    requires
        is_topo_order(o1, n, edges),
        is_topo_order(o2, n, edges),
        o1.subrange(0, sources_below(n, edges).len() as int) == sources_below(n, edges),
        o2.subrange(0, sources_below(n, edges).len() as int) == sources_below(n, edges),
        in_release_order(o1, edges, sources_below(n, edges).len() as int),
        in_release_order(o2, edges, sources_below(n, edges).len() as int),
    ensures o1 == o2,
{
    let s = sources_below(n, edges).len() as int;
    assert forall|a: int| 0 <= a < n implies o1[a] == o2[a] by {
        lemma_release_order_prefix(n, edges, o1, o2, a + 1);
    }
    assert(o1 =~= o2);
}

/// The two orders of [`lemma_release_order_unique`] agree on their first
/// `len` positions.
#[verifier::rlimit(50)]
proof fn lemma_release_order_prefix(n: nat, edges: Seq<(usize, usize)>, o1: Seq<usize>, o2: Seq<usize>, len: int)
    requires
        is_topo_order(o1, n, edges),
        is_topo_order(o2, n, edges),
        o1.subrange(0, sources_below(n, edges).len() as int) == sources_below(n, edges),
        o2.subrange(0, sources_below(n, edges).len() as int) == sources_below(n, edges),
        in_release_order(o1, edges, sources_below(n, edges).len() as int),
        in_release_order(o2, edges, sources_below(n, edges).len() as int),
        0 <= len <= n,
    ensures forall|j: int| 0 <= j < len ==> o1[j] == o2[j],
    decreases len,
{
    let s = sources_below(n, edges).len() as int;
    lemma_sources_len(n, edges);
    if len > 0 {
        let a = len - 1;
        lemma_release_order_prefix(n, edges, o1, o2, a);
        if a < s {
            assert(o1[a] == o1.subrange(0, s)[a]);
            assert(o2[a] == o2.subrange(0, s)[a]);
        } else {
            let x = o1[a];
            let y = o2[a];
            if x != y {
                // Where `x` and `y` stand in the other order: after `a`.
                lemma_covers(o2, n, x as int);
                let b = choose|b: int| 0 <= b < o2.len() && o2[b] == x;
                lemma_covers(o1, n, y as int);
                let c = choose|c: int| 0 <= c < o1.len() && o1[c] == y;
                if b < a { assert(o1[b] == o2[b]); assert(o1[b] != o1[a]); }
                if c < a { assert(o1[c] == o2[c]); assert(o2[c] != o2[a]); }
                // Their releases, read in `o1`, hold in `o2` too.
                assert(has_release(o1, edges, o1[a]));
                let (i, e) = choose|i: int, e: int| released_at(o1, edges, x, i, e);
                assert(has_release(o2, edges, o2[a]));
                let (i2, e2) = choose|i2: int, e2: int| released_at(o2, edges, y, i2, e2);
                assert(i < a) by {
                    assert(edge_ordered(o1, edges[e]));
                    let (p, q) = choose|p: int, q: int| 0 <= p < q < o1.len() && o1[p] == edges[e].0 && o1[q] == edges[e].1;
                    if p != i { if p < i { assert(o1[p] != o1[i]); } else { assert(o1[i] != o1[p]); } }
                    if q != a { if q < a { assert(o1[q] != o1[a]); } else { assert(o1[a] != o1[q]); } }
                }
                assert(i2 < a) by {
                    assert(edge_ordered(o2, edges[e2]));
                    let (p, q) = choose|p: int, q: int| 0 <= p < q < o2.len() && o2[p] == edges[e2].0 && o2[q] == edges[e2].1;
                    if p != i2 { if p < i2 { assert(o2[p] != o2[i2]); } else { assert(o2[i2] != o2[p]); } }
                    if q != a { if q < a { assert(o2[q] != o2[a]); } else { assert(o2[a] != o2[q]); } }
                }
                assert(released_at(o2, edges, x, i, e)) by {
                    assert(o2[i] == o1[i]);
                    assert forall|f: int| 0 <= f < edges.len() && (#[trigger] edges[f]).1 == x implies placed_by(o2, edges[f].0, i) by {
                        assert(placed_by(o1, edges[f].0, i));
                        let j = choose|j: int| 0 <= j <= i && o1[j] == edges[f].0;
                        assert(o2[j] == o1[j]);
                    }
                }
                assert(released_at(o1, edges, y, i2, e2)) by {
                    assert(o1[i2] == o2[i2]);
                    assert forall|f: int| 0 <= f < edges.len() && (#[trigger] edges[f]).1 == y implies placed_by(o1, edges[f].0, i2) by {
                        assert(placed_by(o2, edges[f].0, i2));
                        let j = choose|j: int| 0 <= j <= i2 && o2[j] == edges[f].0;
                        assert(o1[j] == o2[j]);
                    }
                }
                // In `o1`, `x` (at `a`) precedes `y` (at `c`); in `o2`, `y`
                // (at `a`) precedes `x` (at `b`): the releases cannot be
                // ordered both ways.
                assert(released_at(o1, edges, o1[a], i, e));
                assert(released_at(o1, edges, o1[c], i2, e2));
                assert(released_at(o2, edges, o2[a], i2, e2));
                assert(released_at(o2, edges, o2[b], i, e));
            }
        }
    }
}

/// Order the `n` nodes so that every edge's upstream comes before its
/// downstream, breaking ties by insertion order. Returns `None` exactly
/// when the edges form a cycle.
#[verifier::rlimit(100)]
#[verifier::spinoff_prover]
pub fn topological_order(n: usize, edges: &Vec<(usize, usize)>) -> (r: Option<Vec<usize>>)
    requires edges_valid(n as nat, edges@),
    ensures
        match r {
            Some(order) => is_topo_order(order@, n as nat, edges@)
                && order@.subrange(0, sources_below(n as nat, edges@).len() as int) == sources_below(n as nat, edges@)
                && in_release_order(order@, edges@, sources_below(n as nat, edges@).len() as int),
            None => !acyclic(n as nat, edges@),
        },
{
    let m = edges.len();
    let ghost es = edges@;
    let ghost rk0: Seq<int> = Seq::new(n as nat, |i: int| -1int);
    // In-degree counts.
    let mut indeg: Vec<usize> = Vec::new();
    let mut i: usize = 0;
    while i < n
        invariant
            i <= n,
            indeg@.len() == i,
            forall|j: int| 0 <= j < i ==> indeg@[j] == 0,
        decreases n - i,
    {
        indeg.push(0);
        i += 1;
    }
    let mut k: usize = 0;
    while k < m
        invariant
            m == es.len(),
            es == edges@,
            edges_valid(n as nat, es),
            rk0.len() == n,
            forall|j: int| 0 <= j < n ==> rk0[j] == -1,
            k <= m,
            indeg@.len() == n,
            forall|v: int| 0 <= v < n ==> indeg@[v] == live_into(es, v as usize, rk0, k as int),
        decreases m - k,
    {
        let down = edges[k].1;
        proof {
            lemma_live_bound(es, down, rk0, k as int);
            assert forall|v: int| 0 <= v < n implies #[trigger] live_into(es, v as usize, rk0, k + 1)
                == live_into(es, v as usize, rk0, k as int) + (if v == down { 1nat } else { 0nat }) by {
                assert(rk0[es[k as int].0 as int] < 0);
            }
        }
        indeg.set(down, indeg[down] + 1);
        k += 1;
    }
    // Initial queue: nodes without upstream, in insertion order.
    let mut queue: VecDeque<usize> = VecDeque::new();
    let mut v: usize = 0;
    while v < n
        invariant
            v <= n,
            indeg@.len() == n,
            forall|q: int| 0 <= q < queue@.len() ==> queue@[q] < v && indeg@[queue@[q] as int] == 0,
            forall|a: int, b: int| 0 <= a < b < queue@.len() ==> queue@[a] < queue@[b],
            forall|x: int| 0 <= x < v && indeg@[x] == 0 ==> queue@.contains(x as usize),
            queue@ == sources_below(v as nat, es),
            m == es.len(),
            rk0.len() == n,
            forall|j: int| 0 <= j < n ==> rk0[j] == -1,
            forall|x: int| 0 <= x < n ==> indeg@[x] == live_into(es, x as usize, rk0, m as int),
            edges_valid(n as nat, es),
        decreases n - v,
    {
        let ghost q0 = queue@;
        proof {
            if indeg@[v as int] == 0 {
                lemma_live_zero(es, v, rk0, m as int);
                assert forall|k: int| 0 <= k < es.len() implies #[trigger] es[k].1 != v by {
                    if es[k].1 == v {
                        assert(rk0[es[k].0 as int] >= 0);
                    }
                }
            } else {
                lemma_live_pos(es, v, rk0, m as int);
                let k = choose|k: int| 0 <= k < m && es[k].1 == v && rk0[es[k].0 as int] < 0;
                assert(!is_source(v, es));
            }
        }
        if indeg[v] == 0 {
            queue.push_back(v);
            proof {
                assert(queue@[queue@.len() - 1] == v);
                assert forall|x: int| 0 <= x < v && indeg@[x] == 0 implies queue@.contains(x as usize) by {
                    let i = choose|i: int| 0 <= i < q0.len() && q0[i] == x as usize;
                    assert(queue@[i] == x as usize);
                }
            }
        }
        v += 1;
    }
    let mut order: Vec<usize> = Vec::new();
    let ghost mut rk: Seq<int> = rk0;
    let ghost mut done: Set<int> = Set::empty();
    let ghost srcs = sources_below(n as nat, es);
    let ghost mut pushed: Seq<usize> = queue@;
    // The release (position of the releasing node, edge) of every node
    // queued after the sources, in queue order.
    let ghost mut keys: Seq<(int, int)> = Seq::empty();
    proof {
        assert(order@ + queue@ =~= pushed);
        lemma_int_range(0, n as int);
        assert forall|x: int| 0 <= x < n && rk[x] < 0 && indeg@[x] == 0 implies queue@.contains(x as usize) by {}
        assert forall|a: int, b: int| 0 <= a < queue@.len() && 0 <= b < queue@.len() && a != b
            implies queue@[a] != queue@[b] by {
            if a < b { } else { }
        }
    }
    while queue.len() > 0
        invariant
            m == es.len(),
            es == edges@,
            edges_valid(n as nat, es),
            indeg@.len() == n,
            rk.len() == n,
            order@.len() <= n,
            forall|j: int| 0 <= j < order@.len() ==> order@[j] < n && rk[order@[j] as int] == j,
            forall|x: int| 0 <= x < n ==> rk[x] < order@.len(),
            forall|x: int| 0 <= x < n && rk[x] >= 0 ==> order@[rk[x]] == x,
            forall|x: int| 0 <= x < n ==> rk[x] >= -1,
            forall|x: int| 0 <= x < n ==> indeg@[x] == live_into(es, x as usize, rk, m as int),
            forall|e: int| 0 <= e < m && rk[es[e].1 as int] >= 0 ==>
                rk[es[e].0 as int] >= 0 && rk[es[e].0 as int] < rk[es[e].1 as int],
            forall|q: int| 0 <= q < queue@.len() ==> queue@[q] < n && rk[queue@[q] as int] < 0 && indeg@[queue@[q] as int] == 0,
            forall|a: int, b: int| 0 <= a < queue@.len() && 0 <= b < queue@.len() && a != b ==> queue@[a] != queue@[b],
            forall|x: int| 0 <= x < n && rk[x] < 0 && indeg@[x] == 0 ==> queue@.contains(x as usize),
            done.finite(),
            done.len() == order@.len(),
            forall|x: int| done.contains(x) <==> (0 <= x < n && rk[x] >= 0),
            set_int_range(0, n as int).finite(),
            set_int_range(0, n as int).len() == n,
            order@ + queue@ == pushed,
            srcs.len() <= pushed.len(),
            pushed.subrange(0, srcs.len() as int) == srcs,
            keys.len() + srcs.len() == pushed.len(),
            forall|t: int| 0 <= t < keys.len() ==> released_at(order@, es, pushed[srcs.len() + t], keys[t].0, keys[t].1),
            forall|t1: int, t2: int| 0 <= t1 < t2 < keys.len() ==>
                keys[t1].0 < keys[t2].0 || (keys[t1].0 == keys[t2].0 && keys[t1].1 < keys[t2].1),
            forall|t: int| 0 <= t < keys.len() ==> keys[t].0 < order@.len(),
        decreases n - order@.len(),
    {
        let ghost qb = queue@;
        let ghost ob = order@;
        let u = queue.pop_front().unwrap();
        let ghost rkb = rk;
        proof {
            assert forall|x: int| 0 <= x < n && x != u && rkb[x] < 0 && indeg@[x] == 0 implies queue@.contains(x as usize) by {
                let i = choose|i: int| 0 <= i < qb.len() && qb[i] == x as usize;
                assert(i != 0);
                assert(queue@[i - 1] == x as usize);
            }
        }
        let ghost pos = order@.len() as int;
        proof {
            // `u` is unplaced, so fewer than `n` nodes are placed.
            assert(!done.contains(u as int));
            assert(done.insert(u as int).subset_of(set_int_range(0, n as int)));
            lemma_len_subset(done.insert(u as int), set_int_range(0, n as int));
            // Every upstream of `u` is already placed.
            lemma_live_zero(es, u, rkb, m as int);
        }
        order.push(u);
        proof {
            assert(order@.subrange(0, ob.len() as int) =~= ob);
            assert forall|t: int| 0 <= t < keys.len() implies released_at(order@, es, pushed[srcs.len() + t], keys[t].0, keys[t].1) by {
                lemma_released_grow(ob, order@, es, pushed[srcs.len() + t], keys[t].0, keys[t].1);
            }
            assert(order@ + queue@ =~= ob + qb);
            rk = rkb.update(u as int, pos);
            done = done.insert(u as int);
            assert forall|e: int| 0 <= e < m && rk[es[e].1 as int] >= 0 implies
                rk[es[e].0 as int] >= 0 && rk[es[e].0 as int] < rk[es[e].1 as int] by {
                if es[e].1 == u {
                    assert(rkb[es[e].0 as int] >= 0);
                } else if es[e].0 == u {
                    assert(rkb[es[e].1 as int] >= 0);
                    assert(rkb[u as int] >= 0);
                }
            }
            assert forall|x: int| 0 <= x < n implies indeg@[x] == live_into_skip(es, x as usize, rkb, u, 0, m as int) by {
                lemma_skip_zero(es, x as usize, rkb, u, m as int);
            }
        }
        let mut k: usize = 0;
        while k < m
            invariant
                m == es.len(),
                es == edges@,
                edges_valid(n as nat, es),
                0 <= u < n,
                rkb.len() == n,
                rkb[u as int] < 0,
                rk == rkb.update(u as int, pos),
                pos >= 0,
                k <= m,
                indeg@.len() == n,
                forall|x: int| 0 <= x < n ==> indeg@[x] == live_into_skip(es, x as usize, rkb, u, k as int, m as int),
                forall|e: int| 0 <= e < m && rk[es[e].1 as int] >= 0 ==>
                    rk[es[e].0 as int] >= 0 && rk[es[e].0 as int] < rk[es[e].1 as int],
                forall|x: int| 0 <= x < n ==> rk[x] <= pos,
                forall|q: int| 0 <= q < queue@.len() ==> queue@[q] < n && rk[queue@[q] as int] < 0 && indeg@[queue@[q] as int] == 0,
                forall|a: int, b: int| 0 <= a < queue@.len() && 0 <= b < queue@.len() && a != b ==> queue@[a] != queue@[b],
                forall|x: int| 0 <= x < n && rk[x] < 0 && indeg@[x] == 0 ==> queue@.contains(x as usize),
                order@ + queue@ == pushed,
                srcs.len() <= pushed.len(),
                pushed.subrange(0, srcs.len() as int) == srcs,
                order@.len() == pos + 1,
                order@[pos] == u,
                forall|x: int| 0 <= x < n && rk[x] >= 0 ==> order@[rk[x]] == x,
                keys.len() + srcs.len() == pushed.len(),
                forall|t: int| 0 <= t < keys.len() ==> released_at(order@, es, pushed[srcs.len() + t], keys[t].0, keys[t].1),
                forall|t1: int, t2: int| 0 <= t1 < t2 < keys.len() ==>
                    keys[t1].0 < keys[t2].0 || (keys[t1].0 == keys[t2].0 && keys[t1].1 < keys[t2].1),
                forall|t: int| 0 <= t < keys.len() ==> keys[t].0 < pos || (keys[t].0 == pos && keys[t].1 < k),
            decreases m - k,
        {
            if edges[k].0 == u {
                let w = edges[k].1;
                proof {
                    lemma_skip_pos(es, w, rkb, u, k as int, m as int);
                    assert forall|x: int| 0 <= x < n implies #[trigger] live_into_skip(es, x as usize, rkb, u, k + 1, m as int)
                        + (if x == w { 1int } else { 0int }) == live_into_skip(es, x as usize, rkb, u, k as int, m as int) by {
                        lemma_skip_step(es, x as usize, rkb, u, k as int, m as int);
                    }
                }
                let d = indeg[w] - 1;
                let ghost qa = queue@;
                indeg.set(w, d);
                if d != 0 {
                    proof {
                        assert forall|x: int| 0 <= x < n && rk[x] < 0 && indeg@[x] == 0 implies queue@.contains(x as usize) by {
                            assert(x != w);
                        }
                    }
                }
                if d == 0 {
                    proof {
                        // `w` has the unplaced upstream `u`, so it is unplaced.
                        if rk[w as int] >= 0 {
                            assert(rk[u as int] < rk[w as int]);
                            assert(rk[w as int] <= pos);
                        }
                    }
                    let ghost pb = pushed;
                    let ghost obq = order@ + queue@;
                    proof {
                        // `w` is released here: its last upstream is `u`,
                        // and edge `k` is the last from `u` to `w`.
                        assert(live_into_skip(es, w, rkb, u, k + 1, m as int) == 0);
                        lemma_skip_zero_all(es, w, rkb, u, k + 1, m as int);
                        assert forall|f: int| 0 <= f < es.len() && (#[trigger] es[f]).1 == w implies placed_by(order@, es[f].0, pos) by {
                            if rkb[es[f].0 as int] >= 0 {
                                assert(es[f].0 != u);
                                assert(rk[es[f].0 as int] == rkb[es[f].0 as int]);
                                assert(order@[rk[es[f].0 as int]] == es[f].0);
                            } else {
                                assert(order@[pos] == es[f].0);
                            }
                        }
                        assert(released_at(order@, es, w, pos, k as int));
                    }
                    queue.push_back(w);
                    proof {
                        keys = keys.push((pos, k as int));
                        pushed = pushed.push(w);
                        assert(order@ + queue@ =~= obq.push(w));
                        assert(pushed.subrange(0, srcs.len() as int) =~= pb.subrange(0, srcs.len() as int));
                        assert forall|a: int, b: int| 0 <= a < queue@.len() && 0 <= b < queue@.len() && a != b
                            implies queue@[a] != queue@[b] by {
                            if a == queue@.len() - 1 || b == queue@.len() - 1 {
                                let o = if a == queue@.len() - 1 { b } else { a };
                                assert(indeg@[queue@[o] as int] == 0);
                            }
                        }
                        assert(queue@[queue@.len() - 1] == w);
                        assert forall|x: int| 0 <= x < n && rk[x] < 0 && indeg@[x] == 0 implies queue@.contains(x as usize) by {
                            if x != w {
                                let i = choose|i: int| 0 <= i < qa.len() && qa[i] == x as usize;
                                assert(queue@[i] == x as usize);
                            }
                        }
                    }
                }
            } else {
                proof {
                    assert forall|x: int| 0 <= x < n implies #[trigger] live_into_skip(es, x as usize, rkb, u, k + 1, m as int)
                        == live_into_skip(es, x as usize, rkb, u, k as int, m as int) by {
                        lemma_skip_step(es, x as usize, rkb, u, k as int, m as int);
                    }
                }
            }
            k += 1;
        }
        proof {
            assert forall|x: int| 0 <= x < n implies indeg@[x] == live_into(es, x as usize, rk, m as int) by {
                lemma_skip_done(es, x as usize, rkb, u, pos, m as int);
            }
        }
    }
    if order.len() == n {
        proof {
            // Every node is placed.
            assert forall|x: int| 0 <= x < n implies rk[x] >= 0 by {
                if rk[x] < 0 {
                    assert(done.subset_of(set_int_range(0, n as int).remove(x)));
                    lemma_len_subset(done, set_int_range(0, n as int).remove(x));
                }
            }
            assert forall|i: int, j: int| 0 <= i < j < order@.len() implies order@[i] != order@[j] by {
                assert(rk[order@[i] as int] == i);
                assert(rk[order@[j] as int] == j);
            }
            assert forall|e: int| 0 <= e < es.len() implies #[trigger] edge_ordered(order@, es[e]) by {
                let i = rk[es[e].0 as int];
                let j = rk[es[e].1 as int];
                assert(order@[i] == es[e].0 && order@[j] == es[e].1);
            }
            assert(queue@.len() == 0);
            assert(order@ =~= pushed);
            let s0 = srcs.len() as int;
            assert forall|a: int| s0 <= a < order@.len() implies #[trigger] has_release(order@, es, order@[a]) by {
                assert(released_at(order@, es, order@[a], keys[a - s0].0, keys[a - s0].1));
            }
            assert forall|a: int, b: int, i: int, e: int, i2: int, e2: int|
                #![trigger released_at(order@, es, order@[a], i, e), released_at(order@, es, order@[b], i2, e2)]
                s0 <= a < b < order@.len() && released_at(order@, es, order@[a], i, e)
                    && released_at(order@, es, order@[b], i2, e2) implies i < i2 || (i == i2 && e < e2) by {
                assert(released_at(order@, es, order@[a], keys[a - s0].0, keys[a - s0].1));
                assert(released_at(order@, es, order@[b], keys[b - s0].0, keys[b - s0].1));
                lemma_release_unique(order@, es, order@[a], i, e, keys[a - s0].0, keys[a - s0].1);
                lemma_release_unique(order@, es, order@[b], i2, e2, keys[b - s0].0, keys[b - s0].1);
            }
            assert(in_release_order(order@, es, s0));
            assert(order@.subrange(0, s0) == srcs);
        }
        Some(order)
    } else {
        proof {
            if acyclic(n as nat, es) {
                let rank = choose|rank: Seq<nat>| is_ranking(rank, n as nat, es);
                assert forall|x: int| 0 <= x < n && rk[x] < 0 implies
                    exists|y: int| 0 <= y < n && rk[y] < 0 && rank[y] < rank[x] by {
                    assert(!queue@.contains(x as usize));
                    assert(indeg@[x] != 0);
                    assert(indeg@[x] == live_into(es, x as usize, rk, m as int));
                    lemma_live_pos(es, x as usize, rk, m as int);
                    let e = choose|e: int| 0 <= e < m && es[e].1 == x as usize && rk[es[e].0 as int] < 0;
                    assert(rank[es[e].0 as int] < rank[es[e].1 as int]);
                }
                // Some node is unplaced.
                if forall|x: int| 0 <= x < n ==> rk[x] >= 0 {
                    assert(set_int_range(0, n as int) =~= done);
                }
                let x = choose|x: int| 0 <= x < n && rk[x] < 0;
                lemma_descent(rank, rk, n as nat, rank[x] + 1);
            }
        }
        None
    }
}

} // verus!
