use std::collections::{BTreeMap, HashMap, VecDeque};
use std::hash::{BuildHasher, Hash};

use vstd::prelude::*;
use vstd::std_specs::btree::key_obeys_cmp_spec;
use vstd::std_specs::hash::{builds_valid_hashers, obeys_key_model};

use crate::many::Many;
use crate::moves::MoveError;

verus! {

/// Moving a shared reference out of a keyed collection in which `key` finds
/// `item`: the item's own outcome, wrapped in `Some`, and `item_after` in
/// its place.
pub open spec fn moved_ref_through<K, T: Many<K> + ?Sized>(
    item: &T,
    key: K,
    item_after: &T,
    r: Result<Option<T::Ref>, MoveError>,
) -> bool {
    match r {
        Ok(Some(shared)) => item.moved_ref_at(key, item_after, Ok(shared)),
        Ok(None) => false,
        Err(e) => item.moved_ref_at(key, item_after, Err(e)),
    }
}

/// Moving an exclusive reference out of a keyed collection in which `key`
/// finds `item`: the item's own outcome, wrapped in `Some`, and
/// `item_after` in its place.
pub open spec fn moved_mut_through<K, T: Many<K> + ?Sized>(
    item: &T,
    key: K,
    item_after: &T,
    r: Result<Option<T::Mut>, MoveError>,
) -> bool {
    match r {
        Ok(Some(unique)) => item.moved_mut_at(key, item_after, Ok(unique)),
        Ok(None) => false,
        Err(e) => item.moved_mut_at(key, item_after, Err(e)),
    }
}

/// A sequence of items after the item at `i` alone may have changed.
pub open spec fn same_but_at<T>(before: Seq<T>, after: Seq<T>, i: int) -> bool {
    after.len() == before.len() && forall|j: int|
        0 <= j < before.len() && j != i ==> #[trigger] after[j] == before[j]
}

/// Items addressed by position; a position past the end finds nothing.
impl<T> Many<usize> for Vec<T> where T: Many<usize> {
    type Ref = Option<T::Ref>;

    type Mut = Option<T::Mut>;

    open spec fn lookup_is_exact() -> bool {
        T::lookup_is_exact()
    }

    open spec fn ref_refusal_at(&self, key: usize) -> Option<MoveError> {
        if key < self@.len() {
            self@[key as int].ref_refusal_at(key)
        } else {
            None
        }
    }

    open spec fn moved_ref_at(&self, key: usize, after: &Self, r: Result<Self::Ref, MoveError>) -> bool {
        if key < self@.len() {
            same_but_at(self@, after@, key as int) && moved_ref_through(
                &self@[key as int],
                key,
                &after@[key as int],
                r,
            )
        } else {
            after@ == self@ && r == Ok::<Self::Ref, MoveError>(None)
        }
    }

    open spec fn mut_refusal_at(&self, key: usize) -> Option<MoveError> {
        if key < self@.len() {
            self@[key as int].mut_refusal_at(key)
        } else {
            None
        }
    }

    open spec fn moved_mut_at(&self, key: usize, after: &Self, r: Result<Self::Mut, MoveError>) -> bool {
        if key < self@.len() {
            same_but_at(self@, after@, key as int) && moved_mut_through(
                &self@[key as int],
                key,
                &after@[key as int],
                r,
            )
        } else {
            after@ == self@ && r == Ok::<Self::Mut, MoveError>(None)
        }
    }

    fn try_move_ref(&mut self, key: usize) -> (r: Result<Self::Ref, MoveError>) {
        if key >= self.len() {
            return Ok(None);
        }
        let item = &mut self[key];
        match item.try_move_ref(key) {
            Ok(shared) => Ok(Some(shared)),
            Err(e) => Err(e),
        }
    }

    fn try_move_mut(&mut self, key: usize) -> (r: Result<Self::Mut, MoveError>) {
        if key >= self.len() {
            return Ok(None);
        }
        let item = &mut self[key];
        match item.try_move_mut(key) {
            Ok(unique) => Ok(Some(unique)),
            Err(e) => Err(e),
        }
    }
}

/// Items addressed by position; a position past the end finds nothing.
impl<T> Many<usize> for [T] where T: Many<usize> {
    type Ref = Option<T::Ref>;

    type Mut = Option<T::Mut>;

    open spec fn lookup_is_exact() -> bool {
        T::lookup_is_exact()
    }

    open spec fn ref_refusal_at(&self, key: usize) -> Option<MoveError> {
        if key < self@.len() {
            self@[key as int].ref_refusal_at(key)
        } else {
            None
        }
    }

    open spec fn moved_ref_at(&self, key: usize, after: &Self, r: Result<Self::Ref, MoveError>) -> bool {
        if key < self@.len() {
            same_but_at(self@, after@, key as int) && moved_ref_through(
                &self@[key as int],
                key,
                &after@[key as int],
                r,
            )
        } else {
            after@ == self@ && r == Ok::<Self::Ref, MoveError>(None)
        }
    }

    open spec fn mut_refusal_at(&self, key: usize) -> Option<MoveError> {
        if key < self@.len() {
            self@[key as int].mut_refusal_at(key)
        } else {
            None
        }
    }

    open spec fn moved_mut_at(&self, key: usize, after: &Self, r: Result<Self::Mut, MoveError>) -> bool {
        if key < self@.len() {
            same_but_at(self@, after@, key as int) && moved_mut_through(
                &self@[key as int],
                key,
                &after@[key as int],
                r,
            )
        } else {
            after@ == self@ && r == Ok::<Self::Mut, MoveError>(None)
        }
    }

    fn try_move_ref(&mut self, key: usize) -> (r: Result<Self::Ref, MoveError>) {
        if key >= self.len() {
            return Ok(None);
        }
        let item = &mut self[key];
        match item.try_move_ref(key) {
            Ok(shared) => Ok(Some(shared)),
            Err(e) => Err(e),
        }
    }

    fn try_move_mut(&mut self, key: usize) -> (r: Result<Self::Mut, MoveError>) {
        if key >= self.len() {
            return Ok(None);
        }
        let item = &mut self[key];
        match item.try_move_mut(key) {
            Ok(unique) => Ok(Some(unique)),
            Err(e) => Err(e),
        }
    }
}

/// Relies on `VecDeque::get_mut`: the element at `index` counted from the
/// front, or `None` past the end.
#[verifier::external_body]
fn deque_get_mut<T>(deque: &mut VecDeque<T>, index: usize) -> (r: Option<&mut T>)
    ensures
        index < old(deque)@.len() ==> r is Some && *r->Some_0 == old(deque)@[index as int]
            && final(deque)@ == old(deque)@.update(index as int, *final(r->Some_0)),
        index >= old(deque)@.len() ==> r is None && final(deque)@ == old(deque)@,
{
    deque.get_mut(index)
}

/// Items addressed by position from the front; a position past the end
/// finds nothing.
impl<T> Many<usize> for VecDeque<T> where T: Many<usize> {
    type Ref = Option<T::Ref>;

    type Mut = Option<T::Mut>;

    open spec fn lookup_is_exact() -> bool {
        T::lookup_is_exact()
    }

    open spec fn ref_refusal_at(&self, key: usize) -> Option<MoveError> {
        if key < self@.len() {
            self@[key as int].ref_refusal_at(key)
        } else {
            None
        }
    }

    open spec fn moved_ref_at(&self, key: usize, after: &Self, r: Result<Self::Ref, MoveError>) -> bool {
        if key < self@.len() {
            same_but_at(self@, after@, key as int) && moved_ref_through(
                &self@[key as int],
                key,
                &after@[key as int],
                r,
            )
        } else {
            after@ == self@ && r == Ok::<Self::Ref, MoveError>(None)
        }
    }

    open spec fn mut_refusal_at(&self, key: usize) -> Option<MoveError> {
        if key < self@.len() {
            self@[key as int].mut_refusal_at(key)
        } else {
            None
        }
    }

    open spec fn moved_mut_at(&self, key: usize, after: &Self, r: Result<Self::Mut, MoveError>) -> bool {
        if key < self@.len() {
            same_but_at(self@, after@, key as int) && moved_mut_through(
                &self@[key as int],
                key,
                &after@[key as int],
                r,
            )
        } else {
            after@ == self@ && r == Ok::<Self::Mut, MoveError>(None)
        }
    }

    fn try_move_ref(&mut self, key: usize) -> (r: Result<Self::Ref, MoveError>) {
        match deque_get_mut(self, key) {
            Some(item) => match item.try_move_ref(key) {
                Ok(shared) => Ok(Some(shared)),
                Err(e) => Err(e),
            },
            None => Ok(None),
        }
    }

    fn try_move_mut(&mut self, key: usize) -> (r: Result<Self::Mut, MoveError>) {
        match deque_get_mut(self, key) {
            Some(item) => match item.try_move_mut(key) {
                Ok(unique) => Ok(Some(unique)),
                Err(e) => Err(e),
            },
            None => Ok(None),
        }
    }
}

/// Relies on `BTreeMap::get_mut`: the value stored under `key`, or `None`
/// when the key is absent.
#[verifier::external_body]
fn tree_get_mut<'m, K: Ord, V>(map: &'m mut BTreeMap<K, V>, key: &K) -> (r: Option<&'m mut V>)
    ensures
        key_obeys_cmp_spec::<K>() ==> {
            &&& old(map)@.contains_key(*key) ==> r is Some && *r->Some_0 == old(map)@[*key]
                && final(map)@ == old(map)@.insert(*key, *final(r->Some_0))
            &&& !old(map)@.contains_key(*key) ==> r is None && final(map)@ == old(map)@
        },
{
    map.get_mut(key)
}

/// Items addressed by key in key order; an absent key finds nothing. The
/// statements hold where the key type's `Ord` is a total order.
impl<K, V> Many<K> for BTreeMap<K, V> where K: Ord, V: Many<K> {
    type Ref = Option<V::Ref>;

    type Mut = Option<V::Mut>;

    open spec fn lookup_is_exact() -> bool {
        key_obeys_cmp_spec::<K>() && V::lookup_is_exact()
    }

    open spec fn ref_refusal_at(&self, key: K) -> Option<MoveError> {
        if self@.contains_key(key) {
            self@[key].ref_refusal_at(key)
        } else {
            None
        }
    }

    open spec fn moved_ref_at(&self, key: K, after: &Self, r: Result<Self::Ref, MoveError>) -> bool {
        if !key_obeys_cmp_spec::<K>() {
            true
        } else if self@.contains_key(key) {
            after@ == self@.insert(key, after@[key]) && moved_ref_through(
                &self@[key],
                key,
                &after@[key],
                r,
            )
        } else {
            after@ == self@ && r == Ok::<Self::Ref, MoveError>(None)
        }
    }

    open spec fn mut_refusal_at(&self, key: K) -> Option<MoveError> {
        if self@.contains_key(key) {
            self@[key].mut_refusal_at(key)
        } else {
            None
        }
    }

    open spec fn moved_mut_at(&self, key: K, after: &Self, r: Result<Self::Mut, MoveError>) -> bool {
        if !key_obeys_cmp_spec::<K>() {
            true
        } else if self@.contains_key(key) {
            after@ == self@.insert(key, after@[key]) && moved_mut_through(
                &self@[key],
                key,
                &after@[key],
                r,
            )
        } else {
            after@ == self@ && r == Ok::<Self::Mut, MoveError>(None)
        }
    }

    fn try_move_ref(&mut self, key: K) -> (r: Result<Self::Ref, MoveError>) {
        match tree_get_mut(self, &key) {
            Some(item) => match item.try_move_ref(key) {
                Ok(shared) => Ok(Some(shared)),
                Err(e) => Err(e),
            },
            None => Ok(None),
        }
    }

    fn try_move_mut(&mut self, key: K) -> (r: Result<Self::Mut, MoveError>) {
        match tree_get_mut(self, &key) {
            Some(item) => match item.try_move_mut(key) {
                Ok(unique) => Ok(Some(unique)),
                Err(e) => Err(e),
            },
            None => Ok(None),
        }
    }
}

/// Relies on `HashMap::get_mut`: the value stored under `key`, or `None`
/// when the key is absent.
#[verifier::external_body]
pub(crate) fn hash_get_mut<'m, K: Eq + Hash, V, S: BuildHasher>(
    map: &'m mut HashMap<K, V, S>,
    key: &K,
) -> (r: Option<&'m mut V>)
    ensures
        obeys_key_model::<K>() && builds_valid_hashers::<S>() ==> {
            &&& old(map)@.contains_key(*key) ==> r is Some && *r->Some_0 == old(map)@[*key]
                && final(map)@ == old(map)@.insert(*key, *final(r->Some_0))
            &&& !old(map)@.contains_key(*key) ==> r is None && final(map)@ == old(map)@
        },
{
    map.get_mut(key)
}

/// Items addressed by hashed key; an absent key finds nothing. The
/// statements hold where the key type's hashing and equality, and the
/// hasher, behave as std's `HashMap` requires.
impl<K, V, S> Many<K> for HashMap<K, V, S> where K: Eq + Hash, V: Many<K>, S: BuildHasher {
    type Ref = Option<V::Ref>;

    type Mut = Option<V::Mut>;

    open spec fn lookup_is_exact() -> bool {
        obeys_key_model::<K>() && builds_valid_hashers::<S>() && V::lookup_is_exact()
    }

    open spec fn ref_refusal_at(&self, key: K) -> Option<MoveError> {
        if self@.contains_key(key) {
            self@[key].ref_refusal_at(key)
        } else {
            None
        }
    }

    open spec fn moved_ref_at(&self, key: K, after: &Self, r: Result<Self::Ref, MoveError>) -> bool {
        if !(obeys_key_model::<K>() && builds_valid_hashers::<S>()) {
            true
        } else if self@.contains_key(key) {
            after@ == self@.insert(key, after@[key]) && moved_ref_through(
                &self@[key],
                key,
                &after@[key],
                r,
            )
        } else {
            after@ == self@ && r == Ok::<Self::Ref, MoveError>(None)
        }
    }

    open spec fn mut_refusal_at(&self, key: K) -> Option<MoveError> {
        if self@.contains_key(key) {
            self@[key].mut_refusal_at(key)
        } else {
            None
        }
    }

    open spec fn moved_mut_at(&self, key: K, after: &Self, r: Result<Self::Mut, MoveError>) -> bool {
        if !(obeys_key_model::<K>() && builds_valid_hashers::<S>()) {
            true
        } else if self@.contains_key(key) {
            after@ == self@.insert(key, after@[key]) && moved_mut_through(
                &self@[key],
                key,
                &after@[key],
                r,
            )
        } else {
            after@ == self@ && r == Ok::<Self::Mut, MoveError>(None)
        }
    }

    fn try_move_ref(&mut self, key: K) -> (r: Result<Self::Ref, MoveError>) {
        match hash_get_mut(self, &key) {
            Some(item) => match item.try_move_ref(key) {
                Ok(shared) => Ok(Some(shared)),
                Err(e) => Err(e),
            },
            None => Ok(None),
        }
    }

    fn try_move_mut(&mut self, key: K) -> (r: Result<Self::Mut, MoveError>) {
        match hash_get_mut(self, &key) {
            Some(item) => match item.try_move_mut(key) {
                Ok(unique) => Ok(Some(unique)),
                Err(e) => Err(e),
            },
            None => Ok(None),
        }
    }
}

} // verus!
