//! A hash map whose values are slots of shared or exclusive references.
use std::collections::hash_map::{
    Entry, Iter, IterMut, Keys, RandomState, Values, ValuesMut,
};
use std::collections::{HashMap, TryReserveError};
use std::hash::{BuildHasher, Hash};

use vstd::prelude::*;
use vstd::std_specs::hash::{builds_valid_hashers, obeys_key_model, EntrySpecFns};
use vstd::std_specs::iter::IteratorSpec;

use crate::collections::{hash_get_mut, moved_mut_through, moved_ref_through};
use crate::kind::RefKind;
use crate::many::Many;
use crate::moves::{MoveError, MoveMut, MoveRef};

verus! {

/// Holds where a hash map with keys of type `K` and hasher builder `S`
/// finds exactly the entry stored under a key: std's `HashMap` is modelled
/// as a `Map` under this condition.
pub open spec fn hashing_is_exact<K, S>() -> bool {
    obeys_key_model::<K>() && builds_valid_hashers::<S>()
}

#[verifier::external_type_specification]
#[verifier::external_body]
#[verifier::reject_recursive_types(K)]
#[verifier::reject_recursive_types(V)]
pub struct ExValuesMut<'m, K: 'm, V: 'm>(ValuesMut<'m, K, V>);

#[verifier::external_type_specification]
#[verifier::external_body]
#[verifier::reject_recursive_types(K)]
#[verifier::reject_recursive_types(V)]
pub struct ExIterMut<'m, K: 'm, V: 'm>(IterMut<'m, K, V>);

/// Relies on `HashMap::with_hasher`: the map starts empty.
#[verifier::external_body]
fn hash_with_hasher<K, V, S>(hash_builder: S) -> (r: HashMap<K, V, S>)
    ensures
        r@.is_empty(),
{
    HashMap::with_hasher(hash_builder)
}

/// Relies on `HashMap::with_capacity_and_hasher`: the map starts empty.
#[verifier::external_body]
fn hash_with_capacity_and_hasher<K, V, S>(capacity: usize, hash_builder: S) -> (r: HashMap<K, V, S>)
    ensures
        r@.is_empty(),
{
    HashMap::with_capacity_and_hasher(capacity, hash_builder)
}

/// Relies on `HashMap::hasher`, which hands out the stored hasher builder.
#[verifier::external_body]
fn hash_hasher<K, V, S>(map: &HashMap<K, V, S>) -> (r: &S) {
    map.hasher()
}

/// Relies on `HashMap::capacity`, a lower bound on the room allocated.
#[verifier::external_body]
fn hash_capacity<K, V, S>(map: &HashMap<K, V, S>) -> (r: usize) {
    map.capacity()
}

/// Relies on `HashMap::values_mut`: it can change values but no keys.
#[verifier::external_body]
fn hash_values_mut<'m, K, V, S>(map: &'m mut HashMap<K, V, S>) -> (r: ValuesMut<'m, K, V>)
    ensures
        final(map)@.dom() == old(map)@.dom(),
{
    map.values_mut()
}

/// Relies on `HashMap::iter_mut`: it can change values but no keys.
#[verifier::external_body]
fn hash_iter_mut<'m, K, V, S>(map: &'m mut HashMap<K, V, S>) -> (r: IterMut<'m, K, V>)
    ensures
        final(map)@.dom() == old(map)@.dom(),
{
    map.iter_mut()
}

/// Relies on `HashMap::drain`: every entry leaves the map, once each.
#[verifier::external_body]
fn hash_drain<K, V, S>(map: &mut HashMap<K, V, S>) -> (r: Vec<(K, V)>)
    ensures
        final(map)@.is_empty(),
        obeys_key_model::<K>() && builds_valid_hashers::<S>() ==> {
            &&& r@.len() == old(map)@.len()
            &&& r@.map_values(|e: (K, V)| e.0).no_duplicates()
            &&& forall|i: int|
                0 <= i < r@.len() ==> old(map)@.contains_key(#[trigger] r@[i].0) && old(map)@[r@[i].0] == r@[i].1
        },
{
    map.drain().collect()
}

/// Relies on `HashMap::retain`: only entries that were there can remain.
#[verifier::external_body]
fn hash_retain<K, V, S, F>(map: &mut HashMap<K, V, S>, f: F)
    where
        F: FnMut(&K, &mut V) -> bool,
    ensures
        final(map)@.dom().subset_of(old(map)@.dom()),
{
    map.retain(f)
}

/// Relies on `HashMap::into_keys`: every key, once each.
#[verifier::external_body]
fn hash_into_keys<K, V, S>(map: HashMap<K, V, S>) -> (r: Vec<K>)
    ensures
        obeys_key_model::<K>() && builds_valid_hashers::<S>() ==> {
            &&& r@.len() == map@.len()
            &&& r@.no_duplicates()
            &&& r@.to_set() == map@.dom()
        },
{
    map.into_keys().collect()
}

/// Relies on `HashMap::into_values`: the value of every entry, once each.
#[verifier::external_body]
fn hash_into_values<K, V, S>(map: HashMap<K, V, S>) -> (r: Vec<V>)
    ensures
        obeys_key_model::<K>() && builds_valid_hashers::<S>() ==> {
            &&& r@.len() == map@.len()
            &&& forall|i: int| 0 <= i < r@.len() ==> map@.values().contains(#[trigger] r@[i])
        },
{
    map.into_values().collect()
}

/// Relies on `HashMap::try_reserve`: the entries are left as they are.
#[verifier::external_body]
fn hash_try_reserve<K: Eq + Hash, V, S: BuildHasher>(
    map: &mut HashMap<K, V, S>,
    additional: usize,
) -> (r: Result<(), TryReserveError>)
    ensures
        final(map)@ == old(map)@,
{
    map.try_reserve(additional)
}

/// Relies on `HashMap::shrink_to_fit`: the entries are left as they are.
#[verifier::external_body]
fn hash_shrink_to_fit<K: Eq + Hash, V, S: BuildHasher>(map: &mut HashMap<K, V, S>)
    ensures
        final(map)@ == old(map)@,
{
    map.shrink_to_fit()
}

/// Relies on `HashMap::shrink_to`: the entries are left as they are.
#[verifier::external_body]
fn hash_shrink_to<K: Eq + Hash, V, S: BuildHasher>(map: &mut HashMap<K, V, S>, min_capacity: usize)
    ensures
        final(map)@ == old(map)@,
{
    map.shrink_to(min_capacity)
}

/// Relies on `HashMap::get_key_value`: the stored key, equal to `key`, and
/// its value, or `None` when the key is absent.
#[verifier::external_body]
fn hash_get_key_value<'m, K: Eq + Hash, V, S: BuildHasher>(
    map: &'m HashMap<K, V, S>,
    key: &K,
) -> (r: Option<(&'m K, &'m V)>)
    ensures
        obeys_key_model::<K>() && builds_valid_hashers::<S>() ==> match r {
            Some((k, v)) => map@.contains_key(*key) && *k == *key && *v == map@[*key],
            None => !map@.contains_key(*key),
        },
{
    map.get_key_value(key)
}

/// Relies on `HashMap::remove_entry`: the stored key, equal to `key`, and
/// its value leave the map; `None` when the key is absent.
#[verifier::external_body]
fn hash_remove_entry<K: Eq + Hash, V, S: BuildHasher>(map: &mut HashMap<K, V, S>, key: &K) -> (r:
    Option<(K, V)>)
    ensures
        obeys_key_model::<K>() && builds_valid_hashers::<S>() ==> {
            &&& final(map)@ == old(map)@.remove(*key)
            &&& match r {
                Some((k, v)) => old(map)@.contains_key(*key) && k == *key && v == old(map)@[*key],
                None => !old(map)@.contains_key(*key),
            }
        },
{
    map.remove_entry(key)
}

/// A hash map of reference slots: each key holds a shared reference, an
/// exclusive one, or nothing once its exclusive reference has been moved out.
#[derive(Debug)]
#[verifier::reject_recursive_types(K)]
#[verifier::reject_recursive_types(V)]
#[verifier::reject_recursive_types(S)]
pub struct RefKindMap<'a, K, V, S = RandomState> {
    map: HashMap<K, Option<RefKind<'a, V>>, S>,
}

impl<'a, K, V, S> View for RefKindMap<'a, K, V, S> {
    type V = Map<K, Option<RefKind<'a, V>>>;

    closed spec fn view(&self) -> Self::V {
        self.map@
    }
}

impl<'a, K, V> RefKindMap<'a, K, V, RandomState> {
    /// An empty map.
    pub fn new() -> (r: Self)
        ensures
            r@ == Map::<K, Option<RefKind<'a, V>>>::empty(),
    {
        RefKindMap { map: HashMap::new() }
    }

    /// An empty map with room for at least `capacity` entries.
    pub fn with_capacity(capacity: usize) -> (r: Self)
        ensures
            r@ == Map::<K, Option<RefKind<'a, V>>>::empty(),
    {
        RefKindMap { map: HashMap::with_capacity(capacity) }
    }
}

impl<'a, K, V, S> RefKindMap<'a, K, V, S> {
    /// An empty map that hashes keys with `hash_builder`.
    pub fn with_hasher(hash_builder: S) -> (r: Self)
        ensures
            r@.is_empty(),
    {
        RefKindMap { map: hash_with_hasher(hash_builder) }
    }

    /// An empty map with room for at least `capacity` entries, which hashes
    /// keys with `hash_builder`.
    pub fn with_capacity_and_hasher(capacity: usize, hash_builder: S) -> (r: Self)
        ensures
            r@.is_empty(),
    {
        RefKindMap { map: hash_with_capacity_and_hasher(capacity, hash_builder) }
    }

    /// The builder of the map's hashers.
    pub fn hasher(&self) -> (r: &S) {
        hash_hasher(&self.map)
    }

    /// How many entries the map can hold without growing, at least.
    pub fn capacity(&self) -> (r: usize) {
        hash_capacity(&self.map)
    }

    /// The keys, in no given order.
    pub fn keys(&self) -> (r: Keys<'_, K, Option<RefKind<'a, V>>>)
        ensures
            hashing_is_exact::<K, S>() ==> {
                &&& r.remaining().len() == self@.dom().len()
                &&& r.remaining().unref().to_set() == self@.dom()
            },
    {
        self.map.keys()
    }

    /// The slots, in no given order.
    pub fn values(&self) -> (r: Values<'_, K, Option<RefKind<'a, V>>>)
        ensures
            hashing_is_exact::<K, S>() ==> {
                &&& r.remaining().len() == self@.dom().len()
                &&& r.remaining().unref().to_set() == self@.values()
            },
    {
        self.map.values()
    }

    /// The slots, open to change, in no given order; no key can change.
    pub fn values_mut(&mut self) -> (r: ValuesMut<'_, K, Option<RefKind<'a, V>>>)
        ensures
            final(self)@.dom() == old(self)@.dom(),
    {
        hash_values_mut(&mut self.map)
    }

    /// The entries, in no given order.
    pub fn iter(&self) -> (r: Iter<'_, K, Option<RefKind<'a, V>>>)
        ensures
            hashing_is_exact::<K, S>() ==> {
                &&& r.remaining().len() == self@.dom().len()
                &&& forall|i: int|
                    0 <= i < r.remaining().len() ==> self@.contains_key(*#[trigger] r.remaining()[i].0)
                        && self@[*r.remaining()[i].0] == *r.remaining()[i].1
            },
    {
        self.map.iter()
    }

    /// The entries, with slots open to change, in no given order; no key can change.
    pub fn iter_mut(&mut self) -> (r: IterMut<'_, K, Option<RefKind<'a, V>>>)
        ensures
            final(self)@.dom() == old(self)@.dom(),
    {
        hash_iter_mut(&mut self.map)
    }

    /// Removes every entry and returns them, each once, in no given order.
    pub fn drain(&mut self) -> (r: Vec<(K, Option<RefKind<'a, V>>)>)
        ensures
            final(self)@.is_empty(),
            hashing_is_exact::<K, S>() ==> {
                &&& r@.len() == old(self)@.len()
                &&& r@.map_values(|e: (K, Option<RefKind<'a, V>>)| e.0).no_duplicates()
                &&& forall|i: int|
                    0 <= i < r@.len() ==> old(self)@.contains_key(#[trigger] r@[i].0)
                        && old(self)@[r@[i].0] == r@[i].1
            },
    {
        hash_drain(&mut self.map)
    }

    /// Keeps only the entries for which `f` holds; `f` may change the slots.
    pub fn retain<F>(&mut self, f: F)
        where
            F: FnMut(&K, &mut Option<RefKind<'a, V>>) -> bool,
        ensures
            final(self)@.dom().subset_of(old(self)@.dom()),
    {
        hash_retain(&mut self.map, f)
    }

    /// The keys, each once, in no given order; the map is used up.
    pub fn into_keys(self) -> (r: Vec<K>)
        ensures
            hashing_is_exact::<K, S>() ==> {
                &&& r@.len() == self@.len()
                &&& r@.no_duplicates()
                &&& r@.to_set() == self@.dom()
            },
    {
        hash_into_keys(self.map)
    }

    /// The slots, one for each entry, in no given order; the map is used up.
    pub fn into_values(self) -> (r: Vec<Option<RefKind<'a, V>>>)
        ensures
            hashing_is_exact::<K, S>() ==> {
                &&& r@.len() == self@.len()
                &&& forall|i: int| 0 <= i < r@.len() ==> self@.values().contains(#[trigger] r@[i])
            },
    {
        hash_into_values(self.map)
    }

    /// The number of entries.
    pub fn len(&self) -> (r: usize)
        ensures
            hashing_is_exact::<K, S>() ==> r == self@.len(),
    {
        self.map.len()
    }

    /// Whether the map has no entries.
    pub fn is_empty(&self) -> (r: bool)
        ensures
            r == self@.is_empty(),
    {
        self.map.is_empty()
    }

    /// Removes every entry.
    pub fn clear(&mut self)
        ensures
            final(self)@ == Map::<K, Option<RefKind<'a, V>>>::empty(),
    {
        self.map.clear()
    }
}

impl<'a, K, V, S> RefKindMap<'a, K, V, S> where K: Eq + Hash, S: BuildHasher {
    /// Makes room for at least `additional` more entries.
    pub fn reserve(&mut self, additional: usize)
        ensures
            final(self)@ == old(self)@,
    {
        self.map.reserve(additional)
    }

    /// Tries to make room for at least `additional` more entries; the
    /// entries stay as they are either way.
    pub fn try_reserve(&mut self, additional: usize) -> (r: Result<(), TryReserveError>)
        ensures
            final(self)@ == old(self)@,
    {
        hash_try_reserve(&mut self.map, additional)
    }

    /// Gives back as much unused room as it can.
    pub fn shrink_to_fit(&mut self)
        ensures
            final(self)@ == old(self)@,
    {
        hash_shrink_to_fit(&mut self.map)
    }

    /// Gives back unused room, keeping room for at least `min_capacity` entries.
    pub fn shrink_to(&mut self, min_capacity: usize)
        ensures
            final(self)@ == old(self)@,
    {
        hash_shrink_to(&mut self.map, min_capacity)
    }

    /// The entry for `key`, to inspect or change in place.
    pub fn entry(&mut self, key: K) -> (r: Entry<'_, K, Option<RefKind<'a, V>>>)
        ensures
            hashing_is_exact::<K, S>() ==> {
                &&& r.key() == key
                &&& r.value() == old(self)@.get(key)
                &&& final(self)@ == match r.final_value() {
                    Some(slot) => old(self)@.insert(key, slot),
                    None => old(self)@.remove(key),
                }
            },
    {
        self.map.entry(key)
    }

    /// Whether an entry is stored under `key`.
    pub fn contains_key(&self, key: &K) -> (r: bool)
        ensures
            hashing_is_exact::<K, S>() ==> r == self@.contains_key(*key),
    {
        self.map.contains_key(key)
    }

    /// The slot stored under `key`, if there is one.
    pub fn get(&self, key: &K) -> (r: Option<&Option<RefKind<'a, V>>>)
        ensures
            hashing_is_exact::<K, S>() ==> match r {
                Some(slot) => self@.contains_key(*key) && *slot == self@[*key],
                None => !self@.contains_key(*key),
            },
    {
        self.map.get(key)
    }

    /// The stored key and its slot, if `key` is present.
    pub fn get_key_value(&self, key: &K) -> (r: Option<(&K, &Option<RefKind<'a, V>>)>)
        ensures
            hashing_is_exact::<K, S>() ==> match r {
                Some((k, slot)) => self@.contains_key(*key) && *k == *key && *slot == self@[*key],
                None => !self@.contains_key(*key),
            },
    {
        hash_get_key_value(&self.map, key)
    }

    /// A shared view of the target under `key`, borrowed from the map rather
    /// than from the owner; the slot is left as it is. An absent key gives `None`.
    pub fn get_ref(&self, key: &K) -> (r: Option<&V>)
        requires
            hashing_is_exact::<K, S>(),
            self@.contains_key(*key) ==> self@[*key] is Some,
        ensures
            self@.contains_key(*key) ==> r is Some && *r->Some_0 == self@[*key]->Some_0.target(),
            !self@.contains_key(*key) ==> r is None,
    {
        match self.map.get(key) {
            Some(slot) => match slot {
                Some(kind) => Some(kind.get_ref()),
                None => vstd::pervasive::unreached(),
            },
            None => None,
        }
    }

    /// The stored key with a shared view of its target, as `get_ref` gives it.
    pub fn get_key_ref(&self, key: &K) -> (r: Option<(&K, &V)>)
        requires
            hashing_is_exact::<K, S>(),
            self@.contains_key(*key) ==> self@[*key] is Some,
        ensures
            self@.contains_key(*key) ==> r is Some && *r->Some_0.0 == *key && *r->Some_0.1
                == self@[*key]->Some_0.target(),
            !self@.contains_key(*key) ==> r is None,
    {
        match hash_get_key_value(&self.map, key) {
            Some((k, slot)) => match slot {
                Some(kind) => Some((k, kind.get_ref())),
                None => vstd::pervasive::unreached(),
            },
            None => None,
        }
    }

    /// The slot stored under `key`, open to change, if there is one.
    pub fn get_mut(&mut self, key: &K) -> (r: Option<&mut Option<RefKind<'a, V>>>)
        ensures
            hashing_is_exact::<K, S>() ==> {
                &&& old(self)@.contains_key(*key) ==> r is Some && *r->Some_0 == old(self)@[*key]
                    && final(self)@ == old(self)@.insert(*key, *final(r->Some_0))
                &&& !old(self)@.contains_key(*key) ==> r is None && final(self)@ == old(self)@
            },
    {
        hash_get_mut(&mut self.map, key)
    }

    /// Stores a shared reference under `key` and returns what the key held
    /// before, if it held a reference.
    pub fn insert_ref(&mut self, key: K, value: &'a V) -> (r: Option<RefKind<'a, V>>)
        ensures
            hashing_is_exact::<K, S>() ==> {
                &&& final(self)@ == old(self)@.insert(key, Some(RefKind::Ref(value)))
                &&& r == (if old(self)@.contains_key(key) {
                    old(self)@[key]
                } else {
                    None
                })
            },
    {
        match self.map.insert(key, Some(RefKind::Ref(value))) {
            Some(previous) => previous,
            None => None,
        }
    }

    /// An exclusive view of the target under `key`, borrowed from the map
    /// rather than from the owner; the slot keeps its exclusive reference.
    /// An absent key gives `None`.
    pub fn get_ref_mut(&mut self, key: &K) -> (r: Option<&mut V>)
        requires
            hashing_is_exact::<K, S>(),
            old(self)@.contains_key(*key) ==> old(self)@[*key] matches Some(RefKind::Mut(_)),
        ensures
            old(self)@.contains_key(*key) ==> {
                &&& r is Some
                &&& *r->Some_0 == old(self)@[*key]->Some_0.target()
                &&& final(self)@ == old(self)@.insert(*key, final(self)@[*key])
                &&& final(self)@[*key] matches Some(RefKind::Mut(_))
                &&& final(self)@[*key]->Some_0.target() == *final(r->Some_0)
            },
            !old(self)@.contains_key(*key) ==> r is None && final(self)@ == old(self)@,
    {
        match hash_get_mut(&mut self.map, key) {
            Some(slot) => match slot {
                Some(kind) => match kind.get_mut() {
                    Some(unique) => Some(unique),
                    None => vstd::pervasive::unreached(),
                },
                None => vstd::pervasive::unreached(),
            },
            None => None,
        }
    }

    /// Stores an exclusive reference under `key` and returns what the key
    /// held before, if it held a reference.
    pub fn insert_ref_mut(&mut self, key: K, value: &'a mut V) -> (r: Option<RefKind<'a, V>>)
        ensures
            hashing_is_exact::<K, S>() ==> {
                &&& final(self)@ == old(self)@.insert(key, final(self)@[key])
                &&& final(self)@[key] matches Some(RefKind::Mut(_))
                &&& final(self)@[key]->Some_0.target() == *old(value)
                &&& r == (if old(self)@.contains_key(key) {
                    old(self)@[key]
                } else {
                    None
                })
            },
    {
        match self.map.insert(key, Some(RefKind::Mut(value))) {
            Some(previous) => previous,
            None => None,
        }
    }

    /// Stores a shared reference under `key` unless the key is present:
    /// then nothing changes and the reference comes back as the error.
    pub fn try_insert_ref(&mut self, key: K, value: &'a V) -> (r: Result<
        &mut Option<RefKind<'a, V>>,
        RefKind<'a, V>,
    >)
        ensures
            hashing_is_exact::<K, S>() && old(self)@.contains_key(key) ==> {
                &&& r == Err::<&mut Option<RefKind<'a, V>>, RefKind<'a, V>>(RefKind::Ref(value))
                &&& final(self)@ == old(self)@
            },
            hashing_is_exact::<K, S>() && !old(self)@.contains_key(key) ==> {
                &&& r is Ok
                &&& *r->Ok_0 == Some(RefKind::Ref(value))
                &&& final(self)@ == old(self)@.insert(key, *final(r->Ok_0))
            },
    {
        match self.map.entry(key) {
            Entry::Occupied(_) => Err(RefKind::Ref(value)),
            Entry::Vacant(vacant) => Ok(vacant.insert(Some(RefKind::Ref(value)))),
        }
    }

    /// Stores an exclusive reference under `key` unless the key is present:
    /// then nothing changes and the reference comes back inside the error.
    pub fn try_insert_ref_mut(&mut self, key: K, value: &'a mut V) -> (r: Result<
        &mut Option<RefKind<'a, V>>,
        RefKind<'a, V>,
    >)
        ensures
            hashing_is_exact::<K, S>() && old(self)@.contains_key(key) ==> {
                &&& r is Err
                &&& r->Err_0 is Mut
                &&& r->Err_0.target() == *old(value)
                &&& final(self)@ == old(self)@
            },
            hashing_is_exact::<K, S>() && !old(self)@.contains_key(key) ==> {
                &&& r is Ok
                &&& *r->Ok_0 matches Some(RefKind::Mut(_))
                &&& (*r->Ok_0)->Some_0.target() == *old(value)
                &&& final(self)@ == old(self)@.insert(key, *final(r->Ok_0))
            },
    {
        match self.map.entry(key) {
            Entry::Occupied(_) => Err(RefKind::Mut(value)),
            Entry::Vacant(vacant) => Ok(vacant.insert(Some(RefKind::Mut(value)))),
        }
    }

    /// Removes the entry under `key` and returns its slot, if it was present.
    pub fn remove(&mut self, key: &K) -> (r: Option<Option<RefKind<'a, V>>>)
        ensures
            hashing_is_exact::<K, S>() ==> {
                &&& final(self)@ == old(self)@.remove(*key)
                &&& r == (if old(self)@.contains_key(*key) {
                    Some(old(self)@[*key])
                } else {
                    None
                })
            },
    {
        self.map.remove(key)
    }

    /// Removes the entry under `key` and returns the stored key and its
    /// slot, if it was present.
    pub fn remove_entry(&mut self, key: &K) -> (r: Option<(K, Option<RefKind<'a, V>>)>)
        ensures
            hashing_is_exact::<K, S>() ==> {
                &&& final(self)@ == old(self)@.remove(*key)
                &&& r == (if old(self)@.contains_key(*key) {
                    Some((*key, old(self)@[*key]))
                } else {
                    None
                })
            },
    {
        hash_remove_entry(&mut self.map, key)
    }

    /// Moves the exclusive reference out of the slot under `key`, which is
    /// left empty. An absent key gives `None`.
    pub fn move_mut(&mut self, key: &K) -> (r: Option<&'a mut V>)
        requires
            hashing_is_exact::<K, S>(),
            old(self)@.contains_key(*key) ==> old(self)@[*key] matches Some(RefKind::Mut(_)),
        ensures
            old(self)@.contains_key(*key) ==> {
                &&& r is Some
                &&& *r->Some_0 == old(self)@[*key]->Some_0.target()
                &&& *final(r->Some_0) == *final(old(self)@[*key]->Some_0->Mut_0)
                &&& final(self)@ == old(self)@.insert(*key, None)
            },
            !old(self)@.contains_key(*key) ==> r is None && final(self)@ == old(self)@,
    {
        match hash_get_mut(&mut self.map, key) {
            Some(slot) => match MoveMut::move_mut(slot) {
                Ok(unique) => Some(unique),
                Err(_) => vstd::pervasive::unreached(),
            },
            None => None,
        }
    }

    /// Moves a shared reference out of the slot under `key`: a shared
    /// reference is copied, an exclusive one is narrowed to a shared one for
    /// good. An absent key gives `None`.
    pub fn move_ref(&mut self, key: &K) -> (r: Option<&'a V>)
        requires
            hashing_is_exact::<K, S>(),
            old(self)@.contains_key(*key) ==> old(self)@[*key] is Some,
        ensures
            old(self)@.contains_key(*key) ==> {
                &&& r is Some
                &&& *r->Some_0 == old(self)@[*key]->Some_0.target()
                &&& final(self)@ == old(self)@.insert(*key, Some(RefKind::Ref(r->Some_0)))
            },
            !old(self)@.contains_key(*key) ==> r is None && final(self)@ == old(self)@,
    {
        match hash_get_mut(&mut self.map, key) {
            Some(slot) => match MoveRef::move_ref(slot) {
                Ok(shared) => Some(shared),
                Err(_) => vstd::pervasive::unreached(),
            },
            None => None,
        }
    }
}

/// The hashed-key adapter: an absent key finds nothing, a present key
/// forwards the move to its slot.
impl<'a, K, V, S> Many<K> for RefKindMap<'a, K, V, S> where K: Eq + Hash, S: BuildHasher {
    type Ref = Option<&'a V>;

    type Mut = Option<&'a mut V>;

    open spec fn lookup_is_exact() -> bool {
        hashing_is_exact::<K, S>()
    }

    open spec fn ref_refusal_at(&self, key: K) -> Option<MoveError> {
        if self@.contains_key(key) {
            self@[key].ref_refusal_at(key)
        } else {
            None
        }
    }

    open spec fn moved_ref_at(&self, key: K, after: &Self, r: Result<Self::Ref, MoveError>) -> bool {
        if !hashing_is_exact::<K, S>() {
            true
        } else if self@.contains_key(key) {
            after@ == self@.insert(key, after@[key]) && moved_ref_through(
                &self@[key],
                key,
                &after@[key],
                r,
            )
        } else {
            after@ == self@ && r == Ok::<Self::Ref, MoveError>(None)
        }
    }

    open spec fn mut_refusal_at(&self, key: K) -> Option<MoveError> {
        if self@.contains_key(key) {
            self@[key].mut_refusal_at(key)
        } else {
            None
        }
    }

    open spec fn moved_mut_at(&self, key: K, after: &Self, r: Result<Self::Mut, MoveError>) -> bool {
        if !hashing_is_exact::<K, S>() {
            true
        } else if self@.contains_key(key) {
            after@ == self@.insert(key, after@[key]) && moved_mut_through(
                &self@[key],
                key,
                &after@[key],
                r,
            )
        } else {
            after@ == self@ && r == Ok::<Self::Mut, MoveError>(None)
        }
    }

    fn try_move_ref(&mut self, key: K) -> (r: Result<Self::Ref, MoveError>) {
        self.map.try_move_ref(key)
    }

    fn try_move_mut(&mut self, key: K) -> (r: Result<Self::Mut, MoveError>) {
        self.map.try_move_mut(key)
    }
}

impl<'a, K, V, S: Default> Default for RefKindMap<'a, K, V, S> {
    /// An empty map with the default hasher builder.
    fn default() -> (r: Self)
        ensures
            r@.is_empty(),
    {
        RefKindMap { map: HashMap::default() }
    }
}

/// The slot that a shared reference is stored in.
fn shared_slot<'a, K, V>(entry: (K, &'a V)) -> (r: (K, Option<RefKind<'a, V>>))
    ensures
        r == (entry.0, Some(RefKind::Ref(entry.1))),
{
    let (key, shared) = entry;
    (key, Some(RefKind::Ref(shared)))
}

/// The slot that an exclusive reference is stored in.
fn exclusive_slot<'a, K, V>(entry: (K, &'a mut V)) -> (r: (K, Option<RefKind<'a, V>>))
    ensures
        r.0 == entry.0,
        r.1 matches Some(RefKind::Mut(_)),
        r.1->Some_0.target() == *old(entry.1),
{
    let (key, unique) = entry;
    (key, Some(RefKind::Mut(unique)))
}

impl<'a, K, V, S> FromIterator<(K, &'a V)> for RefKindMap<'a, K, V, S> where
    K: Eq + Hash,
    S: BuildHasher + Default,
 {
    /// Relies on `HashMap::from_iter`: a map of shared references, a later
    /// pair replacing an earlier one with the same key.
    #[verifier::external_body]
    fn from_iter<I: IntoIterator<Item = (K, &'a V)>>(iter: I) -> Self {
        RefKindMap { map: HashMap::from_iter(iter.into_iter().map(shared_slot)) }
    }
}

impl<'a, K, V, S> FromIterator<(K, &'a mut V)> for RefKindMap<'a, K, V, S> where
    K: Eq + Hash,
    S: BuildHasher + Default,
 {
    /// Relies on `HashMap::from_iter`: a map of exclusive references, a
    /// later pair replacing an earlier one with the same key.
    #[verifier::external_body]
    fn from_iter<I: IntoIterator<Item = (K, &'a mut V)>>(iter: I) -> Self {
        RefKindMap { map: HashMap::from_iter(iter.into_iter().map(exclusive_slot)) }
    }
}

impl<'a, K, V, S> Extend<(K, &'a V)> for RefKindMap<'a, K, V, S> where
    K: Eq + Hash,
    S: BuildHasher,
 {
    /// Relies on `HashMap::extend`: stores a shared reference for each pair.
    #[verifier::external_body]
    fn extend<I: IntoIterator<Item = (K, &'a V)>>(&mut self, iter: I) {
        self.map.extend(iter.into_iter().map(shared_slot))
    }
}

impl<'a, K, V, S> Extend<(K, &'a mut V)> for RefKindMap<'a, K, V, S> where
    K: Eq + Hash,
    S: BuildHasher,
 {
    /// Relies on `HashMap::extend`: stores an exclusive reference for each pair.
    #[verifier::external_body]
    fn extend<I: IntoIterator<Item = (K, &'a mut V)>>(&mut self, iter: I) {
        self.map.extend(iter.into_iter().map(exclusive_slot))
    }
}

} // verus!
