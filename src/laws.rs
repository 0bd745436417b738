//! What holds of the move protocol across several calls.
use std::collections::{BTreeMap, HashMap};
use std::hash::{BuildHasher, Hash};

use vstd::prelude::*;
use vstd::std_specs::btree::key_obeys_cmp_spec;

use crate::collections::moved_ref_through;
use crate::iter::{Cursor, PeekableKey};
use crate::kind::RefKind;
use crate::many::Many;
use crate::map::{hashing_is_exact, RefKindMap};
use crate::moves::{MoveError, MoveMut, MoveRef};

verus! {

/// The three states a slot can be in.
pub enum SlotState {
    /// The slot holds an exclusive reference.
    Exclusive,
    /// The slot holds a shared reference.
    Shared,
    /// The slot's exclusive reference has been moved out.
    Emptied,
}

/// A request made of a slot.
pub enum Request {
    /// A move of a shared reference.
    Shared,
    /// A move of an exclusive reference.
    Exclusive,
}

/// The state of a slot.
pub open spec fn state_of<'a, T>(slot: Option<RefKind<'a, T>>) -> SlotState {
    match slot {
        Some(RefKind::Mut(_)) => SlotState::Exclusive,
        Some(RefKind::Ref(_)) => SlotState::Shared,
        None => SlotState::Emptied,
    }
}

/// The state a slot is left in by a request.
pub open spec fn after_request(state: SlotState, request: Request) -> SlotState {
    match (state, request) {
        (SlotState::Exclusive, Request::Shared) => SlotState::Shared,
        (SlotState::Exclusive, Request::Exclusive) => SlotState::Emptied,
        (other, _) => other,
    }
}

/// Whether a request hands out an exclusive reference.
pub open spec fn grants_exclusive(state: SlotState, request: Request) -> bool {
    state is Exclusive && request is Exclusive
}

/// How many exclusive references a run of requests hands out.
pub open spec fn exclusive_grants(state: SlotState, requests: Seq<Request>) -> nat
    decreases requests.len(),
{
    if requests.len() == 0 {
        0
    } else {
        (if grants_exclusive(state, requests[0]) {
            1nat
        } else {
            0nat
        }) + exclusive_grants(after_request(state, requests[0]), requests.drop_first())
    }
}

/// A slot follows the state machine above: each move leaves the state that
/// `after_request` gives, and a move of an exclusive reference succeeds
/// exactly when `grants_exclusive` says so.
pub proof fn slot_follows_states<'a, T>(
    slot: Option<RefKind<'a, T>>,
    after_shared: Option<RefKind<'a, T>>,
    shared: Result<&'a T, MoveError>,
    after_exclusive: Option<RefKind<'a, T>>,
    exclusive: Result<&'a mut T, MoveError>,
)
    requires
        slot.moved_ref(after_shared, shared),
        slot.moved_mut(after_exclusive, exclusive),
    ensures
        state_of(after_shared) == after_request(state_of(slot), Request::Shared),
        shared is Ok <==> !(state_of(slot) is Emptied),
        state_of(after_exclusive) == after_request(state_of(slot), Request::Exclusive),
        exclusive is Ok <==> grants_exclusive(state_of(slot), Request::Exclusive),
{
}

/// From a slot that holds no exclusive reference, no run of requests hands one out.
pub proof fn no_exclusive_after_narrowing(state: SlotState, requests: Seq<Request>)
    requires
        !(state is Exclusive),
    ensures
        exclusive_grants(state, requests) == 0,
    decreases requests.len(),
{
    if requests.len() > 0 {
        no_exclusive_after_narrowing(after_request(state, requests[0]), requests.drop_first());
    }
}

/// Whatever state a slot starts in and whatever requests follow, at most
/// one exclusive reference ever leaves it.
pub proof fn at_most_one_exclusive(state: SlotState, requests: Seq<Request>)
    ensures
        exclusive_grants(state, requests) <= 1,
    decreases requests.len(),
{
    if requests.len() > 0 {
        let next = after_request(state, requests[0]);
        if state is Exclusive {
            no_exclusive_after_narrowing(next, requests.drop_first());
        } else {
            no_exclusive_after_narrowing(state, requests);
        }
    }
}

/// Two shared moves in a row out of a slot that was not emptied both
/// succeed and hand out equal views, and the second leaves the slot as the
/// first left it.
pub proof fn shared_move_is_idempotent<'a, T>(
    slot: Option<RefKind<'a, T>>,
    first_after: Option<RefKind<'a, T>>,
    first: Result<&'a T, MoveError>,
    second_after: Option<RefKind<'a, T>>,
    second: Result<&'a T, MoveError>,
)
    requires
        slot is Some,
        slot.moved_ref(first_after, first),
        first_after.moved_ref(second_after, second),
    ensures
        first is Ok,
        second is Ok,
        *second->Ok_0 == *first->Ok_0,
        second_after == first_after,
{
}

/// After an exclusive move succeeds, a shared move and an exclusive move of
/// the same slot both fail with `BorrowedMutably`, and the slot stays emptied.
pub proof fn exclusive_move_is_last<'a, T>(
    slot: Option<RefKind<'a, T>>,
    emptied: Option<RefKind<'a, T>>,
    taken: Result<&'a mut T, MoveError>,
    after_shared: Option<RefKind<'a, T>>,
    shared: Result<&'a T, MoveError>,
    after_exclusive: Option<RefKind<'a, T>>,
    exclusive: Result<&'a mut T, MoveError>,
)
    requires
        slot.moved_mut(emptied, taken),
        taken is Ok,
        emptied.moved_ref(after_shared, shared),
        emptied.moved_mut(after_exclusive, exclusive),
    ensures
        shared == Err::<&'a T, MoveError>(MoveError::BorrowedMutably),
        exclusive == Err::<&'a mut T, MoveError>(MoveError::BorrowedMutably),
        after_shared is None,
        after_exclusive is None,
{
}

/// After a shared move out of a slot that held an exclusive reference, an
/// exclusive move fails with `BorrowedImmutably` and leaves the slot
/// holding the shared reference, as it found it.
pub proof fn shared_move_blocks_exclusive<'a, T>(
    slot: Option<RefKind<'a, T>>,
    narrowed: Option<RefKind<'a, T>>,
    shared: Result<&'a T, MoveError>,
    after: Option<RefKind<'a, T>>,
    exclusive: Result<&'a mut T, MoveError>,
)
    requires
        slot matches Some(RefKind::Mut(_)),
        slot.moved_ref(narrowed, shared),
        narrowed.moved_mut(after, exclusive),
    ensures
        shared is Ok,
        exclusive == Err::<&'a mut T, MoveError>(MoveError::BorrowedImmutably),
        after == narrowed,
        after matches Some(RefKind::Ref(_)),
{
}

/// A position past the end of a vector finds nothing: no error, no change.
pub proof fn vec_missing_key<T: Many<usize>>(
    items: Vec<T>,
    key: usize,
    after_shared: Vec<T>,
    shared: Result<Option<T::Ref>, MoveError>,
    after_exclusive: Vec<T>,
    exclusive: Result<Option<T::Mut>, MoveError>,
)
    requires
        key >= items@.len(),
        items.moved_ref_at(key, &after_shared, shared),
        items.moved_mut_at(key, &after_exclusive, exclusive),
    ensures
        shared == Ok::<Option<T::Ref>, MoveError>(None),
        exclusive == Ok::<Option<T::Mut>, MoveError>(None),
        after_shared@ == items@,
        after_exclusive@ == items@,
{
}

/// A key absent from an ordered map finds nothing: no error, no change.
pub proof fn btree_missing_key<K: Ord, V: Many<K>>(
    map: BTreeMap<K, V>,
    key: K,
    after_shared: BTreeMap<K, V>,
    shared: Result<Option<V::Ref>, MoveError>,
    after_exclusive: BTreeMap<K, V>,
    exclusive: Result<Option<V::Mut>, MoveError>,
)
    requires
        key_obeys_cmp_spec::<K>(),
        !map@.contains_key(key),
        map.moved_ref_at(key, &after_shared, shared),
        map.moved_mut_at(key, &after_exclusive, exclusive),
    ensures
        shared == Ok::<Option<V::Ref>, MoveError>(None),
        exclusive == Ok::<Option<V::Mut>, MoveError>(None),
        after_shared@ == map@,
        after_exclusive@ == map@,
{
}

/// A key absent from a hash map finds nothing: no error, no change.
pub proof fn hash_missing_key<K: Eq + Hash, V: Many<K>, S: BuildHasher>(
    map: HashMap<K, V, S>,
    key: K,
    after_shared: HashMap<K, V, S>,
    shared: Result<Option<V::Ref>, MoveError>,
    after_exclusive: HashMap<K, V, S>,
    exclusive: Result<Option<V::Mut>, MoveError>,
)
    requires
        hashing_is_exact::<K, S>(),
        !map@.contains_key(key),
        map.moved_ref_at(key, &after_shared, shared),
        map.moved_mut_at(key, &after_exclusive, exclusive),
    ensures
        shared == Ok::<Option<V::Ref>, MoveError>(None),
        exclusive == Ok::<Option<V::Mut>, MoveError>(None),
        after_shared@ == map@,
        after_exclusive@ == map@,
{
}

/// A key absent from a map of reference slots finds nothing: no error, no change.
pub proof fn ref_kind_map_missing_key<'a, K: Eq + Hash, V, S: BuildHasher>(
    map: RefKindMap<'a, K, V, S>,
    key: K,
    after_shared: RefKindMap<'a, K, V, S>,
    shared: Result<Option<&'a V>, MoveError>,
    after_exclusive: RefKindMap<'a, K, V, S>,
    exclusive: Result<Option<&'a mut V>, MoveError>,
)
    requires
        hashing_is_exact::<K, S>(),
        !map@.contains_key(key),
        map.moved_ref_at(key, &after_shared, shared),
        map.moved_mut_at(key, &after_exclusive, exclusive),
    ensures
        shared == Ok::<Option<&'a V>, MoveError>(None),
        exclusive == Ok::<Option<&'a mut V>, MoveError>(None),
        after_shared@ == map@,
        after_exclusive@ == map@,
{
}

/// A cursor that runs out before the key's item finds nothing: no error,
/// and every item is discarded.
pub proof fn cursor_missing_key<T: Many<Key>, Key>(
    cursor: Cursor<T>,
    key: PeekableKey<Key>,
    after: Cursor<T>,
    r: Result<Option<T::Ref>, MoveError>,
)
    requires
        key.skipped() >= cursor.rest().len(),
        cursor.moved_ref_at(key, &after, r),
    ensures
        r == Ok::<Option<T::Ref>, MoveError>(None),
        after.rest().len() == 0,
{
}

/// `Nth(key, n)` discards the first `n` items and reaches the item that was
/// `n`-th; a second `Nth(key, m)` counts from the new head, so it reaches
/// the item that was `n + m`-th at first.
pub proof fn cursor_nth_counts_from_head<T: Many<Key>, Key>(
    cursor: Cursor<T>,
    inner: Key,
    n: usize,
    m: usize,
    middle: Cursor<T>,
    first: Result<Option<T::Ref>, MoveError>,
    last: Cursor<T>,
    second: Result<Option<T::Ref>, MoveError>,
)
    requires
        n + m < cursor.rest().len(),
        m > 0,
        cursor.moved_ref_at(PeekableKey::Nth(inner, n), &middle, first),
        middle.moved_ref_at(PeekableKey::Nth(inner, m), &last, second),
    ensures
        moved_ref_through(&cursor.rest()[n as int], inner, &middle.rest()[0], first),
        middle.rest().len() == cursor.rest().len() - n,
        middle.rest()[m as int] == cursor.rest()[n + m],
        last.rest().len() == cursor.rest().len() - n - m,
{
    assert(middle.rest()[m as int] == cursor.rest().skip(n as int)[m as int]);
}

/// Two shared moves in a row by the same position of a vector of slots
/// both succeed and hand out equal views, where the slot was not emptied.
pub proof fn vec_shared_move_is_idempotent<'a, T>(
    slots: Vec<Option<RefKind<'a, T>>>,
    key: usize,
    first_after: Vec<Option<RefKind<'a, T>>>,
    first: Result<Option<&'a T>, MoveError>,
    second_after: Vec<Option<RefKind<'a, T>>>,
    second: Result<Option<&'a T>, MoveError>,
)
    requires
        key < slots@.len(),
        slots@[key as int] is Some,
        slots.moved_ref_at(key, &first_after, first),
        first_after.moved_ref_at(key, &second_after, second),
    ensures
        first matches Ok(Some(_)),
        second matches Ok(Some(_)),
        *second->Ok_0->Some_0 == *first->Ok_0->Some_0,
        second_after@ == first_after@,
{
    assert(second_after@ =~= first_after@);
}

/// After an exclusive move by a position of a vector of slots succeeds,
/// a shared and an exclusive move by that position both fail with
/// `BorrowedMutably`.
pub proof fn vec_exclusive_move_is_last<'a, T>(
    slots: Vec<Option<RefKind<'a, T>>>,
    key: usize,
    emptied: Vec<Option<RefKind<'a, T>>>,
    taken: Result<Option<&'a mut T>, MoveError>,
    after_shared: Vec<Option<RefKind<'a, T>>>,
    shared: Result<Option<&'a T>, MoveError>,
    after_exclusive: Vec<Option<RefKind<'a, T>>>,
    exclusive: Result<Option<&'a mut T>, MoveError>,
)
    requires
        slots.moved_mut_at(key, &emptied, taken),
        taken matches Ok(Some(_)),
        emptied.moved_ref_at(key, &after_shared, shared),
        emptied.moved_mut_at(key, &after_exclusive, exclusive),
    ensures
        shared == Err::<Option<&'a T>, MoveError>(MoveError::BorrowedMutably),
        exclusive == Err::<Option<&'a mut T>, MoveError>(MoveError::BorrowedMutably),
{
}

/// After a shared move by a position whose slot held an exclusive
/// reference, an exclusive move by that position fails with
/// `BorrowedImmutably` and leaves the vector as it found it, the slot
/// holding a shared reference.
pub proof fn vec_shared_move_blocks_exclusive<'a, T>(
    slots: Vec<Option<RefKind<'a, T>>>,
    key: usize,
    narrowed: Vec<Option<RefKind<'a, T>>>,
    shared: Result<Option<&'a T>, MoveError>,
    after: Vec<Option<RefKind<'a, T>>>,
    exclusive: Result<Option<&'a mut T>, MoveError>,
)
    requires
        key < slots@.len(),
        slots@[key as int] matches Some(RefKind::Mut(_)),
        slots.moved_ref_at(key, &narrowed, shared),
        narrowed.moved_mut_at(key, &after, exclusive),
    ensures
        shared matches Ok(Some(_)),
        exclusive == Err::<Option<&'a mut T>, MoveError>(MoveError::BorrowedImmutably),
        after@ == narrowed@,
        after@[key as int] matches Some(RefKind::Ref(_)),
{
    assert(after@ =~= narrowed@);
}

/// Two shared moves in a row by a key of a map of reference slots both
/// succeed and hand out equal views, where the key's slot was not emptied.
pub proof fn map_shared_move_is_idempotent<'a, K: Eq + Hash, V, S: BuildHasher>(
    map: RefKindMap<'a, K, V, S>,
    key: K,
    first_after: RefKindMap<'a, K, V, S>,
    first: Result<Option<&'a V>, MoveError>,
    second_after: RefKindMap<'a, K, V, S>,
    second: Result<Option<&'a V>, MoveError>,
)
    requires
        hashing_is_exact::<K, S>(),
        map@.contains_key(key),
        map@[key] is Some,
        map.moved_ref_at(key, &first_after, first),
        first_after.moved_ref_at(key, &second_after, second),
    ensures
        first matches Ok(Some(_)),
        second matches Ok(Some(_)),
        *second->Ok_0->Some_0 == *first->Ok_0->Some_0,
        second_after@ == first_after@,
{
    assert(second_after@ =~= first_after@);
}

/// After an exclusive move by a key of a map of reference slots succeeds,
/// a shared and an exclusive move by that key both fail with `BorrowedMutably`.
pub proof fn map_exclusive_move_is_last<'a, K: Eq + Hash, V, S: BuildHasher>(
    map: RefKindMap<'a, K, V, S>,
    key: K,
    emptied: RefKindMap<'a, K, V, S>,
    taken: Result<Option<&'a mut V>, MoveError>,
    after_shared: RefKindMap<'a, K, V, S>,
    shared: Result<Option<&'a V>, MoveError>,
    after_exclusive: RefKindMap<'a, K, V, S>,
    exclusive: Result<Option<&'a mut V>, MoveError>,
)
    requires
        hashing_is_exact::<K, S>(),
        map.moved_mut_at(key, &emptied, taken),
        taken matches Ok(Some(_)),
        emptied.moved_ref_at(key, &after_shared, shared),
        emptied.moved_mut_at(key, &after_exclusive, exclusive),
    ensures
        shared == Err::<Option<&'a V>, MoveError>(MoveError::BorrowedMutably),
        exclusive == Err::<Option<&'a mut V>, MoveError>(MoveError::BorrowedMutably),
{
}

/// After a shared move by a key whose slot held an exclusive reference, an
/// exclusive move by that key fails with `BorrowedImmutably` and leaves the
/// map as it found it, the slot holding a shared reference.
pub proof fn map_shared_move_blocks_exclusive<'a, K: Eq + Hash, V, S: BuildHasher>(
    map: RefKindMap<'a, K, V, S>,
    key: K,
    narrowed: RefKindMap<'a, K, V, S>,
    shared: Result<Option<&'a V>, MoveError>,
    after: RefKindMap<'a, K, V, S>,
    exclusive: Result<Option<&'a mut V>, MoveError>,
)
    requires
        hashing_is_exact::<K, S>(),
        map@.contains_key(key),
        map@[key] matches Some(RefKind::Mut(_)),
        map.moved_ref_at(key, &narrowed, shared),
        narrowed.moved_mut_at(key, &after, exclusive),
    ensures
        shared matches Ok(Some(_)),
        exclusive == Err::<Option<&'a mut V>, MoveError>(MoveError::BorrowedImmutably),
        after@ == narrowed@,
        after@[key] matches Some(RefKind::Ref(_)),
{
    assert(after@ =~= narrowed@);
}

} // verus!
