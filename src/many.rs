use vstd::prelude::*;

use crate::moves::{Move, MoveError, MoveMut, MoveRef};

verus! {

/// A collection of slots, addressed by `Key`, out of which references are
/// moved one key at a time.
pub trait Many<Key> {
    /// What a move of a shared reference hands out.
    type Ref;

    /// What a move of an exclusive reference hands out.
    type Mut;

    /// Holds where looking a key up finds exactly the slot stored under
    /// that key: always for positions, and for maps where the key type's
    /// comparison and hashing behave as std's collections require.
    spec fn lookup_is_exact() -> bool;

    /// The error with which `try_move_ref` refuses `key`, if it does.
    spec fn ref_refusal_at(&self, key: Key) -> Option<MoveError>;

    /// `after` and `r` are what moving a shared reference out by `key`
    /// leaves in the collection and returns.
    spec fn moved_ref_at(&self, key: Key, after: &Self, r: Result<Self::Ref, MoveError>) -> bool;

    /// The error with which `try_move_mut` refuses `key`, if it does.
    spec fn mut_refusal_at(&self, key: Key) -> Option<MoveError>;

    /// `after` and `r` are what moving an exclusive reference out by `key`
    /// leaves in the collection and returns.
    spec fn moved_mut_at(&self, key: Key, after: &Self, r: Result<Self::Mut, MoveError>) -> bool;

    /// Tries to move a shared reference out of the collection.
    ///
    /// A shared reference is copied, and an exclusive one is narrowed to a
    /// shared one that stays in the collection.
    fn try_move_ref(&mut self, key: Key) -> (r: Result<Self::Ref, MoveError>)
        ensures
            Self::moved_ref_at(&*old(self), key, &*final(self), r),
            Self::lookup_is_exact() ==> (Self::ref_refusal_at(&*old(self), key) is None <==> r is Ok),
            Self::lookup_is_exact() && r is Err ==> Self::ref_refusal_at(&*old(self), key) == Some(
                r->Err_0,
            ),
    ;

    /// Moves a shared reference out of the collection, where that is allowed.
    fn move_ref(&mut self, key: Key) -> (r: Self::Ref)
        requires
            Self::lookup_is_exact(),
            Self::ref_refusal_at(&*old(self), key) is None,
        ensures
            Self::moved_ref_at(&*old(self), key, &*final(self), Ok(r)),
    {
        match self.try_move_ref(key) {
            Ok(shared) => shared,
            Err(_) => vstd::pervasive::unreached(),
        }
    }

    /// Tries to move an exclusive reference out of the collection.
    fn try_move_mut(&mut self, key: Key) -> (r: Result<Self::Mut, MoveError>)
        ensures
            Self::moved_mut_at(&*old(self), key, &*final(self), r),
            Self::lookup_is_exact() ==> (Self::mut_refusal_at(&*old(self), key) is None <==> r is Ok),
            Self::lookup_is_exact() && r is Err ==> Self::mut_refusal_at(&*old(self), key) == Some(
                r->Err_0,
            ),
    ;

    /// Moves an exclusive reference out of the collection, where that is allowed.
    fn move_mut(&mut self, key: Key) -> (r: Self::Mut)
        requires
            Self::lookup_is_exact(),
            Self::mut_refusal_at(&*old(self), key) is None,
        ensures
            Self::moved_mut_at(&*old(self), key, &*final(self), Ok(r)),
    {
        match self.try_move_mut(key) {
            Ok(unique) => unique,
            Err(_) => vstd::pervasive::unreached(),
        }
    }
}

/// A single slot is a collection in which every key addresses that slot.
impl<T, K> Many<K> for T where T: Move {
    type Ref = <T as MoveRef>::Ref;

    type Mut = <T as MoveMut>::Mut;

    open spec fn lookup_is_exact() -> bool {
        true
    }

    open spec fn ref_refusal_at(&self, key: K) -> Option<MoveError> {
        MoveRef::ref_refusal(*self)
    }

    open spec fn moved_ref_at(&self, key: K, after: &Self, r: Result<Self::Ref, MoveError>) -> bool {
        MoveRef::moved_ref(*self, *after, r)
    }

    open spec fn mut_refusal_at(&self, key: K) -> Option<MoveError> {
        MoveMut::mut_refusal(*self)
    }

    open spec fn moved_mut_at(&self, key: K, after: &Self, r: Result<Self::Mut, MoveError>) -> bool {
        MoveMut::moved_mut(*self, *after, r)
    }

    fn try_move_ref(&mut self, key: K) -> (r: Result<Self::Ref, MoveError>) {
        MoveRef::move_ref(self)
    }

    fn try_move_mut(&mut self, key: K) -> (r: Result<Self::Mut, MoveError>) {
        MoveMut::move_mut(self)
    }
}

} // verus!
