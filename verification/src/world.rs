//! The resource store: a registry of keys, dense resource ids, change
//! stamps and the global event sequence.
use vstd::prelude::*;
use std::sync::Arc;
use std::sync::atomic::AtomicBool;

verus! {

/// Dense index of a resource inside a [`World`]. Assigned in registration
/// order (0, 1, 2, ...).
#[derive(Clone, Copy, PartialEq, Eq, Structural, Debug, Hash)]
pub struct ResourceId(pub usize);

impl ResourceId {
    /// The dense index.
    pub fn index(self) -> (r: usize)
        ensures r == self.0,
    {
        self.0
    }
}

/// A position in the global event sequence.
#[derive(Clone, Copy, PartialEq, Eq, Structural, Debug, Hash, PartialOrd, Ord)]
pub struct Sequence(pub i64);

/// The sequence value that follows `s` (two's-complement wrap-around).
pub open spec fn next_seq(s: i64) -> i64 {
    if s == i64::MAX { i64::MIN } else { (s + 1) as i64 }
}

impl Sequence {
    /// The raw sequence value.
    pub fn get(self) -> (r: i64)
        ensures r == self.0,
    {
        self.0
    }

    /// The sequence that follows this one, wrapping at `i64::MAX`.
    pub fn next(self) -> (r: Sequence)
        ensures r.0 == next_seq(self.0),
    {
        Sequence(self.0.wrapping_add(1))
    }
}

/// True when no key occurs twice in `keys`.
pub open spec fn keys_distinct(keys: Seq<u64>) -> bool {
    forall|i: int, j: int| 0 <= i < keys.len() && 0 <= j < keys.len() && i != j ==> keys[i] != keys[j]
}

/// Maps resource keys (stand-ins for the registered types) to dense ids:
/// the id of a key is its position in registration order.
pub struct Registry {
    keys: Vec<u64>,
}

impl View for Registry {
    type V = Seq<u64>;

    closed spec fn view(&self) -> Seq<u64> {
        self.keys@
    }
}

/// One declared access of a handler parameter: the resource and whether
/// it is written.
#[derive(Clone, Copy, PartialEq, Eq, Structural, Debug)]
pub struct Access {
    /// The resource accessed.
    pub id: ResourceId,
    /// `true` for a write (`ResMut`), `false` for a read (`Res`).
    pub write: bool,
}

/// Two accesses conflict when they name the same resource and at least one
/// of them writes it.
pub open spec fn accesses_conflict(a: Access, b: Access) -> bool {
    a.id == b.id && (a.write || b.write)
}

/// True when some pair of distinct positions in `acc` conflicts.
pub open spec fn has_conflict(acc: Seq<Access>) -> bool {
    exists|i: int, j: int| 0 <= i < j < acc.len() && accesses_conflict(acc[i], acc[j])
}

impl Registry {
    /// Well-formed: no key is registered twice.
    pub open spec fn wf(&self) -> bool {
        keys_distinct(self@)
    }

    /// An empty registry.
    pub fn new() -> (r: Registry)
        ensures r@ == Seq::<u64>::empty(), r.wf(),
    {
        Registry { keys: Vec::new() }
    }

    /// Number of registered keys.
    pub fn len(&self) -> (r: usize)
        ensures r == self@.len(),
    {
        self.keys.len()
    }

    /// Returns `true` if nothing is registered.
    pub fn is_empty(&self) -> (r: bool)
        ensures r == (self@.len() == 0),
    {
        self.keys.len() == 0
    }

    /// Returns `true` if `key` is registered.
    pub fn contains(&self, key: u64) -> (r: bool)
        ensures r == self@.contains(key),
    {
        match self.try_id(key) {
            Some(_) => true,
            None => false,
        }
    }

    /// The id of `key`, or `None` if it is not registered.
    pub fn try_id(&self, key: u64) -> (r: Option<ResourceId>)
        ensures
            match r {
                Some(id) => id.0 < self@.len() && self@[id.0 as int] == key,
                None => !self@.contains(key),
            },
    {
        let mut i: usize = 0;
        while i < self.keys.len()
            invariant
                i <= self.keys@.len(),
                forall|j: int| 0 <= j < i ==> self.keys@[j] != key,
            decreases self.keys@.len() - i,
        {
            if self.keys[i] == key {
                return Some(ResourceId(i));
            }
            i += 1;
        }
        None
    }

    /// The id of a registered `key`.
    pub fn id(&self, key: u64) -> (r: ResourceId)
        requires self@.contains(key),
        ensures r.0 < self@.len(), self@[r.0 as int] == key,
    {
        match self.try_id(key) {
            Some(id) => id,
            None => { proof { assert(false); } ResourceId(0) },
        }
    }

    /// The key registered at `id`.
    pub fn key_of(&self, id: ResourceId) -> (r: u64)
        requires id.0 < self@.len(),
        ensures r == self@[id.0 as int],
    {
        self.keys[id.0]
    }

    /// Append `key`, returning its fresh id.
    fn push(&mut self, key: u64) -> (r: ResourceId)
        requires old(self).wf(), !old(self)@.contains(key),
        ensures final(self)@ == old(self)@.push(key), final(self).wf(), r.0 == old(self)@.len(),
    {
        let id = ResourceId(self.keys.len());
        self.keys.push(key);
        proof {
            assert forall|i: int, j: int| 0 <= i < self@.len() && 0 <= j < self@.len() && i != j
                implies self@[i] != self@[j] by {
                if i == old(self)@.len() as int {
                    assert(old(self)@[j] == self@[j]);
                } else if j == old(self)@.len() as int {
                    assert(old(self)@[i] == self@[i]);
                }
            }
        }
        id
    }

    /// Finds the first pair of accesses that conflict (same resource, at
    /// least one write). Returns `None` when the accesses are compatible.
    pub fn find_conflict(accesses: &Vec<Access>) -> (r: Option<(usize, usize)>)
        ensures
            match r {
                Some((i, j)) => i < j < accesses@.len() && accesses_conflict(accesses@[i as int], accesses@[j as int]),
                None => !has_conflict(accesses@),
            },
    {
        let n = accesses.len();
        let mut i: usize = 0;
        while i < n
            invariant
                n == accesses@.len(),
                i <= n,
                forall|a: int, b: int| 0 <= a < i && a < b < n ==> !accesses_conflict(accesses@[a], accesses@[b]),
            decreases n - i,
        {
            let mut j: usize = i + 1;
            while j < n
                invariant
                    n == accesses@.len(),
                    i < n,
                    i + 1 <= j <= n,
                    forall|a: int, b: int| 0 <= a < i && a < b < n ==> !accesses_conflict(accesses@[a], accesses@[b]),
                    forall|b: int| i < b < j ==> !accesses_conflict(accesses@[i as int], accesses@[b]),
                decreases n - j,
            {
                let a = accesses[i];
                let b = accesses[j];
                if a.id.0 == b.id.0 && (a.write || b.write) {
                    return Some((i, j));
                }
                j += 1;
            }
            i += 1;
        }
        None
    }

    /// Returns `true` when the declared accesses are compatible: no resource
    /// is both written and accessed again by the same handler.
    pub fn check_access(&self, accesses: &Vec<Access>) -> (r: bool)
        ensures r == !has_conflict(accesses@),
    {
        match Registry::find_conflict(accesses) {
            Some(_) => false,
            None => true,
        }
    }
}

/// Abstract state of a [`World`].
pub struct WorldView<V> {
    /// Registered keys, by id.
    pub keys: Seq<u64>,
    /// Resource values, by id.
    pub values: Seq<V>,
    /// Sequence at which each resource was last written, by id.
    pub changed: Seq<i64>,
    /// The current global sequence.
    pub seq: i64,
}

impl<V> WorldView<V> {
    /// One key, value and stamp per resource.
    pub open spec fn wf_lens(self) -> bool {
        &&& self.values.len() == self.keys.len()
        &&& self.changed.len() == self.keys.len()
    }

    /// `id` names a registered resource.
    pub open spec fn has(self, id: ResourceId) -> bool {
        id.0 < self.keys.len()
    }

    /// The state after a write of `v` at `id`, stamped at the current sequence.
    pub open spec fn write(self, id: ResourceId, v: V) -> WorldView<V> {
        WorldView {
            values: self.values.update(id.0 as int, v),
            changed: self.changed.update(id.0 as int, self.seq),
            ..self
        }
    }

    /// The state after the sequence advanced by one.
    pub open spec fn advanced(self) -> WorldView<V> {
        WorldView { seq: next_seq(self.seq), ..self }
    }
}

/// A read gives back what a write wrote: after writing `v` at `id`, the
/// resource at `id` is `v` and is stamped with the current sequence, while
/// every other resource, every other stamp, the keys and the sequence are
/// as they were.
pub proof fn lemma_write_then_read<V>(w: WorldView<V>, id: ResourceId, v: V, other: int)
    requires w.wf_lens(), w.has(id), 0 <= other < w.keys.len(), other != id.0,
    ensures
        w.write(id, v).wf_lens(),
        w.write(id, v).values[id.0 as int] == v,
        w.write(id, v).changed[id.0 as int] == w.seq,
        w.write(id, v).values[other] == w.values[other],
        w.write(id, v).changed[other] == w.changed[other],
        w.write(id, v).keys == w.keys,
        w.write(id, v).seq == w.seq,
{
}

/// Builder for a [`World`]: registers resources, then freezes.
pub struct WorldBuilder<V> {
    registry: Registry,
    values: Vec<V>,
}

impl<V> WorldBuilder<V> {
    /// Well-formed: one value per registered key, keys distinct.
    pub open spec fn wf(&self) -> bool {
        self.registry().wf() && self.values_view().len() == self.registry()@.len()
    }

    /// The registry being built.
    pub closed spec fn registry(&self) -> Registry {
        self.registry
    }

    /// The values registered so far, by id.
    pub closed spec fn values_view(&self) -> Seq<V> {
        self.values@
    }

    /// An empty builder.
    pub fn new() -> (r: Self)
        ensures r.wf(), r.registry()@.len() == 0,
    {
        WorldBuilder { registry: Registry::new(), values: Vec::new() }
    }

    /// Register `value` under a fresh `key`; returns its id.
    pub fn register(&mut self, key: u64, value: V) -> (r: ResourceId)
        requires old(self).wf(), !old(self).registry()@.contains(key),
        ensures
            final(self).wf(),
            final(self).registry()@ == old(self).registry()@.push(key),
            final(self).values_view() == old(self).values_view().push(value),
            r.0 == old(self).registry()@.len(),
    {
        let id = self.registry.push(key);
        self.values.push(value);
        id
    }

    /// Register `value` under `key` unless the key is already present;
    /// returns the id of `key` either way.
    pub fn ensure(&mut self, key: u64, value: V) -> (r: ResourceId)
        requires old(self).wf(),
        ensures
            final(self).wf(),
            r.0 < final(self).registry()@.len(),
            final(self).registry()@[r.0 as int] == key,
            old(self).registry()@.contains(key) ==> final(self).registry() == old(self).registry()
                && final(self).values_view() == old(self).values_view(),
            !old(self).registry()@.contains(key) ==> final(self).registry()@ == old(self).registry()@.push(key)
                && final(self).values_view() == old(self).values_view().push(value),
    {
        match self.registry.try_id(key) {
            Some(id) => id,
            None => self.register(key, value),
        }
    }

    /// Returns `true` if `key` is registered.
    pub fn contains(&self, key: u64) -> (r: bool)
        ensures r == self.registry()@.contains(key),
    {
        self.registry.contains(key)
    }

    /// Number of registered resources.
    pub fn len(&self) -> (r: usize)
        ensures r == self.registry()@.len(),
    {
        self.registry.len()
    }

    /// Returns `true` if nothing is registered.
    pub fn is_empty(&self) -> (r: bool)
        ensures r == (self.registry()@.len() == 0),
    {
        self.registry.len() == 0
    }

    /// Registry access for resolving ids at build time.
    pub fn registry_ref(&self) -> (r: &Registry)
        ensures *r == self.registry(),
    {
        &self.registry
    }

    /// Freeze into a [`World`] at sequence 0 with every resource stamped 0.
    pub fn build(self) -> (w: World<V>)
        requires self.wf(),
        ensures
            w@.keys == self.registry()@,
            w@.values == self.values_view(),
            w@.seq == 0,
            forall|i: int| 0 <= i < w@.changed.len() ==> w@.changed[i] == 0,
    {
        let WorldBuilder { registry, values } = self;
        let ghost keys = registry@;
        let ghost vals = values@;
        let mut values = values;
        let mut slots: Vec<Slot<V>> = Vec::new();
        let mut i: usize = 0;
        let n = values.len();
        let mut rev: Vec<Slot<V>> = Vec::new();
        // Move values out from the back, then restore registration order.
        while values.len() > 0
            invariant
                values@.len() + rev@.len() == n,
                registry@ == keys,
                n == vals.len(),
                n == keys.len(),
                forall|j: int| 0 <= j < values@.len() ==> values@[j] == vals[j],
                forall|j: int| 0 <= j < rev@.len() ==> (#[trigger] rev@[j]).value == vals[n - 1 - j]
                    && rev@[j].key == keys[n - 1 - j] && rev@[j].changed == 0,
            decreases values@.len(),
        {
            let k = values.len() - 1;
            let v = values.pop().unwrap();
            let key = registry.key_of(ResourceId(k));
            rev.push(Slot { key, value: v, changed: 0 });
        }
        while rev.len() > 0
            invariant
                rev@.len() + slots@.len() == n,
                n == vals.len(),
                n == keys.len(),
                forall|j: int| 0 <= j < rev@.len() ==> (#[trigger] rev@[j]).value == vals[n - 1 - j]
                    && rev@[j].key == keys[n - 1 - j] && rev@[j].changed == 0,
                forall|j: int| 0 <= j < slots@.len() ==> (#[trigger] slots@[j]).value == vals[j]
                    && slots@[j].key == keys[j] && slots@[j].changed == 0,
            decreases rev@.len(),
        {
            let s = rev.pop().unwrap();
            slots.push(s);
        }
        let w = World { slots, seq: 0, shutdown: Arc::new(AtomicBool::new(false)) };
        proof {
            assert(w@.keys =~= keys);
            assert(w@.values =~= vals);
        }
        w
    }
}

/// One resource: its key, value and last-write stamp.
pub struct Slot<V> {
    /// The key the resource was registered under.
    pub key: u64,
    /// The resource value.
    pub value: V,
    /// Sequence at which the value was last written.
    pub changed: i64,
}

/// Frozen resource store. Resources are addressed by [`ResourceId`];
/// writes stamp the resource with the current [`Sequence`]. The set of
/// resources is fixed when the world is built.
pub struct World<V> {
    slots: Vec<Slot<V>>,
    seq: i64,
    shutdown: Arc<AtomicBool>,
}

impl<V> View for World<V> {
    type V = WorldView<V>;

    closed spec fn view(&self) -> WorldView<V> {
        WorldView {
            keys: Seq::new(self.slots@.len(), |i: int| self.slots@[i].key),
            values: Seq::new(self.slots@.len(), |i: int| self.slots@[i].value),
            changed: Seq::new(self.slots@.len(), |i: int| self.slots@[i].changed),
            seq: self.seq,
        }
    }
}

impl<V> World<V> {
    /// Every world has one key, value and stamp per resource.
    pub proof fn lemma_lens(&self)
        ensures self@.wf_lens(),
    {
    }

    /// Number of resources.
    pub fn len(&self) -> (r: usize)
        ensures r == self@.keys.len(),
    {
        self.slots.len()
    }

    /// Returns `true` if `key` is registered.
    pub fn contains(&self, key: u64) -> (r: bool)
        ensures r == self@.keys.contains(key),
    {
        match self.try_id(key) {
            Some(_) => true,
            None => false,
        }
    }

    /// The id of `key` (its first registration), or `None`.
    pub fn try_id(&self, key: u64) -> (r: Option<ResourceId>)
        ensures
            match r {
                Some(id) => self@.has(id) && self@.keys[id.0 as int] == key
                    && forall|j: int| 0 <= j < id.0 ==> self@.keys[j] != key,
                None => !self@.keys.contains(key),
            },
    {
        let mut i: usize = 0;
        while i < self.slots.len()
            invariant
                i <= self.slots@.len(),
                forall|j: int| 0 <= j < i ==> self@.keys[j] != key,
            decreases self.slots@.len() - i,
        {
            if self.slots[i].key == key {
                return Some(ResourceId(i));
            }
            i += 1;
        }
        proof {
            if self@.keys.contains(key) {
                let j = choose|j: int| 0 <= j < self@.keys.len() && self@.keys[j] == key;
                assert(self@.keys[j] != key);
            }
        }
        None
    }

    /// The id of a registered `key`.
    pub fn id(&self, key: u64) -> (r: ResourceId)
        requires self@.keys.contains(key),
        ensures self@.has(r), self@.keys[r.0 as int] == key,
    {
        match self.try_id(key) {
            Some(id) => id,
            None => { proof { assert(false); } ResourceId(0) },
        }
    }

    /// Shared access to the resource at `id`.
    pub fn get(&self, id: ResourceId) -> (r: &V)
        requires self@.has(id),
        ensures *r == self@.values[id.0 as int],
    {
        &self.slots[id.0].value
    }

    /// Shared access to the resource registered under `key`.
    pub fn resource(&self, key: u64) -> (r: &V)
        requires self@.keys.contains(key),
        ensures exists|i: int| 0 <= i < self@.keys.len() && self@.keys[i] == key && *r == self@.values[i],
    {
        let id = self.id(key);
        &self.slots[id.0].value
    }

    /// Replace the resource at `id`, stamping it with the current sequence.
    pub fn set(&mut self, id: ResourceId, value: V)
        requires old(self)@.has(id),
        ensures final(self)@ == old(self)@.write(id, value),
    {
        let s = self.seq;
        let k = self.slots[id.0].key;
        self.slots.set(id.0, Slot { key: k, value, changed: s });
        proof {
            assert(self@.keys =~= old(self)@.keys);
            assert(self@.values =~= old(self)@.values.update(id.0 as int, value));
            assert(self@.changed =~= old(self)@.changed.update(id.0 as int, old(self)@.seq));
        }
    }

    /// Exclusive access to the resource at `id`; stamps it with the
    /// current sequence.
    pub fn get_mut(&mut self, id: ResourceId) -> (r: &mut V)
        requires old(self)@.has(id),
        ensures
            *r == old(self)@.values[id.0 as int],
            final(self)@.keys =~= old(self)@.keys,
            final(self)@.values =~= old(self)@.values.update(id.0 as int, *final(r)),
            final(self)@.changed =~= old(self)@.changed.update(id.0 as int, old(self)@.seq),
            final(self)@.seq == old(self)@.seq,
    {
        let s = self.seq;
        self.slots[id.0].changed = s;
        &mut self.slots[id.0].value
    }

    /// Exclusive access to the resource registered under `key`; stamps it
    /// with the current sequence.
    pub fn resource_mut(&mut self, key: u64) -> (r: &mut V)
        requires old(self)@.keys.contains(key),
        ensures
            exists|i: int| 0 <= i < old(self)@.keys.len() && old(self)@.keys[i] == key
                && *r == old(self)@.values[i]
                && final(self)@.values =~= old(self)@.values.update(i, *final(r))
                && final(self)@.changed =~= old(self)@.changed.update(i, old(self)@.seq),
            final(self)@.keys =~= old(self)@.keys,
            final(self)@.seq == old(self)@.seq,
    {
        let id = self.id(key);
        self.get_mut(id)
    }

    /// The registry of keys, in id order.
    pub fn registry(&self) -> (r: Registry)
        ensures r@ == self@.keys,
    {
        let mut keys: Vec<u64> = Vec::new();
        let mut i: usize = 0;
        while i < self.slots.len()
            invariant
                i <= self.slots@.len(),
                keys@.len() == i,
                forall|j: int| 0 <= j < i ==> keys@[j] == self.slots@[j].key,
            decreases self.slots@.len() - i,
        {
            keys.push(self.slots[i].key);
            i += 1;
        }
        proof {
            assert(keys@ =~= self@.keys);
        }
        Registry { keys }
    }

    /// Sequence at which the resource at `id` was last written.
    pub fn changed_at(&self, id: ResourceId) -> (r: Sequence)
        requires self@.has(id),
        ensures r.0 == self@.changed[id.0 as int],
    {
        Sequence(self.slots[id.0].changed)
    }

    /// Whether the resource at `id` was written after `tick`.
    pub fn changed_after(&self, id: ResourceId, tick: Sequence) -> (r: bool)
        requires self@.has(id),
        ensures r == (self@.changed[id.0 as int] > tick.0),
    {
        self.slots[id.0].changed > tick.0
    }

    /// Whether the resource at `id` was written at the current sequence.
    pub fn is_changed(&self, id: ResourceId) -> (r: bool)
        requires self@.has(id),
        ensures r == (self@.changed[id.0 as int] == self@.seq),
    {
        self.slots[id.0].changed == self.seq
    }

    /// The current sequence.
    pub fn current_sequence(&self) -> (r: Sequence)
        ensures r.0 == self@.seq,
    {
        Sequence(self.seq)
    }

    /// Advance the global sequence by one and return the new value.
    pub fn next_sequence(&mut self) -> (r: Sequence)
        ensures final(self)@ == old(self)@.advanced(), r.0 == final(self)@.seq,
    {
        self.seq = self.seq.wrapping_add(1);
        proof {
            assert(self@.keys =~= old(self)@.keys);
            assert(self@.values =~= old(self)@.values);
            assert(self@.changed =~= old(self)@.changed);
        }
        Sequence(self.seq)
    }

    /// The shared shutdown flag.
    pub closed spec fn shutdown_spec(&self) -> Arc<AtomicBool> {
        self.shutdown
    }

    /// Handle for the event loop to observe or trigger shutdown: it holds
    /// the world's own flag.
    pub fn shutdown_handle(&self) -> (r: crate::shutdown::ShutdownHandle)
        ensures r.flag_spec() == self.shutdown_spec(),
    {
        crate::shutdown::ShutdownHandle::new(self.shutdown.clone())
    }

    /// The shared shutdown flag.
    pub fn shutdown_flag(&self) -> (r: &AtomicBool)
        ensures *r == *self.shutdown_spec(),
    {
        &self.shutdown
    }
}

} // verus!
