//! Type-indexed component storage: a builder registers one value per key,
//! then freezes into a container addressed by dense ids.
//!
//! Keys stand for the registered types; ids are assigned in registration
//! order, starting at 0.
use vstd::prelude::*;
use crate::world::keys_distinct;

verus! {

/// Dense index of a registered component.
#[derive(Clone, Copy, PartialEq, Eq, Structural, Hash, Debug)]
pub struct ComponentId(pub usize);

/// Builder: registers values, one per key.
pub struct ComponentsBuilder<V> {
    keys: Vec<u64>,
    values: Vec<V>,
}

impl<V> ComponentsBuilder<V> {
    /// The registered keys, by id.
    pub closed spec fn keys(&self) -> Seq<u64> {
        self.keys@
    }

    /// The registered values, by id.
    pub closed spec fn values(&self) -> Seq<V> {
        self.values@
    }

    /// One value per key, keys distinct.
    pub open spec fn wf(&self) -> bool {
        self.keys().len() == self.values().len() && keys_distinct(self.keys())
    }

    /// An empty builder.
    pub fn new() -> (r: Self)
        ensures r.wf(), r.keys().len() == 0,
    {
        ComponentsBuilder { keys: Vec::new(), values: Vec::new() }
    }

    /// Register `value` under `key`, which must not be registered yet; it
    /// gets the next id.
    pub fn register(self, key: u64, value: V) -> (r: Self)
        requires self.wf(), !self.keys().contains(key),
        ensures
            r.wf(),
            r.keys() == self.keys().push(key),
            r.values() == self.values().push(value),
    {
        let mut s = self;
        s.keys.push(key);
        s.values.push(value);
        s
    }

    /// Number of registered values.
    pub fn len(&self) -> (r: usize)
        requires self.wf(),
        ensures r == self.keys().len(),
    {
        self.keys.len()
    }

    /// Whether nothing is registered.
    pub fn is_empty(&self) -> (r: bool)
        requires self.wf(),
        ensures r == (self.keys().len() == 0),
    {
        self.keys.len() == 0
    }

    /// Whether `key` is registered.
    pub fn contains(&self, key: u64) -> (r: bool)
        ensures r == self.keys().contains(key),
    {
        find_key(&self.keys, key).is_some()
    }

    /// Freeze into the container.
    pub fn build(self) -> (r: Components<V>)
        requires self.wf(),
        ensures r.wf(), r.keys() == self.keys(), r.values() == self.values(),
    {
        Components { keys: self.keys, values: self.values }
    }
}

/// Position of `key` in `keys`, if any.
fn find_key(keys: &Vec<u64>, key: u64) -> (r: Option<usize>)
    ensures
        match r {
            Some(i) => i < keys@.len() && keys@[i as int] == key
                && forall|j: int| 0 <= j < i ==> keys@[j] != key,
            None => !keys@.contains(key),
        },
{
    let mut i: usize = 0;
    while i < keys.len()
        invariant i <= keys@.len(), forall|j: int| 0 <= j < i ==> keys@[j] != key,
        decreases keys@.len() - i,
    {
        if keys[i] == key {
            return Some(i);
        }
        i += 1;
    }
    None
}

/// Frozen container: values addressed by [`ComponentId`].
pub struct Components<V> {
    keys: Vec<u64>,
    values: Vec<V>,
}

impl<V> Components<V> {
    /// The registered keys, by id.
    pub closed spec fn keys(&self) -> Seq<u64> {
        self.keys@
    }

    /// The values, by id.
    pub closed spec fn values(&self) -> Seq<V> {
        self.values@
    }

    /// One value per key, keys distinct.
    pub open spec fn wf(&self) -> bool {
        self.keys().len() == self.values().len() && keys_distinct(self.keys())
    }

    /// An empty builder.
    pub fn builder() -> (r: ComponentsBuilder<V>)
        ensures r.wf(), r.keys().len() == 0,
    {
        ComponentsBuilder::new()
    }

    /// Id of the value registered under `key`, which must be registered.
    pub fn id(&self, key: u64) -> (r: ComponentId)
        requires self.wf(), self.keys().contains(key),
        ensures r.0 < self.keys().len(), self.keys()[r.0 as int] == key,
    {
        match find_key(&self.keys, key) {
            Some(i) => ComponentId(i),
            None => { proof { assert(false); } ComponentId(0) },
        }
    }

    /// Id of the value registered under `key`, if any.
    pub fn try_id(&self, key: u64) -> (r: Option<ComponentId>)
        requires self.wf(),
        ensures
            match r {
                Some(id) => id.0 < self.keys().len() && self.keys()[id.0 as int] == key,
                None => !self.keys().contains(key),
            },
    {
        match find_key(&self.keys, key) {
            Some(i) => Some(ComponentId(i)),
            None => None,
        }
    }

    /// Number of values.
    pub fn len(&self) -> (r: usize)
        requires self.wf(),
        ensures r == self.keys().len(),
    {
        self.keys.len()
    }

    /// Whether the container is empty.
    pub fn is_empty(&self) -> (r: bool)
        requires self.wf(),
        ensures r == (self.keys().len() == 0),
    {
        self.keys.len() == 0
    }

    /// Whether `key` is registered.
    pub fn contains(&self, key: u64) -> (r: bool)
        ensures r == self.keys().contains(key),
    {
        find_key(&self.keys, key).is_some()
    }

    /// The value at `id`.
    pub fn get(&self, id: ComponentId) -> (r: &V)
        requires self.wf(), id.0 < self.keys().len(),
        ensures *r == self.values()[id.0 as int],
    {
        &self.values[id.0]
    }

    /// Replace the value at `id`; returns the previous value.
    pub fn replace(&mut self, id: ComponentId, value: V) -> (r: V)
        requires old(self).wf(), id.0 < old(self).keys().len(),
        ensures
            final(self).wf(),
            r == old(self).values()[id.0 as int],
            final(self).keys() == old(self).keys(),
            final(self).values() == old(self).values().update(id.0 as int, value),
    {
        let mut v = value;
        std::mem::swap(&mut v, &mut self.values[id.0]);
        v
    }

    /// Mutable access to the value at `id`.
    pub fn get_mut(&mut self, id: ComponentId) -> (r: &mut V)
        requires old(self).wf(), id.0 < old(self).keys().len(),
        ensures
            *r == old(self).values()[id.0 as int],
            final(self).keys() == old(self).keys(),
            final(self).values() == old(self).values().update(id.0 as int, *final(r)),
    {
        &mut self.values[id.0]
    }
}

} // verus!
