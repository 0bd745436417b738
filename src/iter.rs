//! A key that addresses an item of a cursor by its distance from the head,
//! and the cursor adapter that hands out references by such keys.
use vstd::prelude::*;

use crate::collections::{moved_mut_through, moved_ref_through};
use crate::many::Many;
use crate::moves::MoveError;

verus! {

/// Key of a cursor: the inner key, forwarded to the item that it reaches.
#[derive(Debug, Clone, Copy, PartialEq, Eq, PartialOrd, Ord, Hash)]
pub enum PeekableKey<Key> {
    /// Reaches the item at the head of the cursor.
    Peek(Key),
    /// Discards `n` items from the head, then reaches the new head.
    Nth(Key, usize),
}

impl<Key> PeekableKey<Key> {
    /// The inner key.
    pub open spec fn spec_key(self) -> Key {
        match self {
            PeekableKey::Peek(key) => key,
            PeekableKey::Nth(key, _) => key,
        }
    }

    /// How many items the key discards before it reaches its item.
    pub open spec fn skipped(self) -> nat {
        match self {
            PeekableKey::Peek(_) => 0,
            PeekableKey::Nth(_, n) => n as nat,
        }
    }

    /// A key that reaches the item at the head.
    pub fn peek(key: Key) -> (r: Self)
        ensures
            r == PeekableKey::Peek(key),
    {
        PeekableKey::Peek(key)
    }

    /// A key that reaches the next item, discarding none.
    pub fn next(key: Key) -> (r: Self)
        ensures
            r == PeekableKey::Nth(key, 0),
    {
        PeekableKey::Nth(key, 0)
    }

    /// A key that discards `n` items and then reaches the new head.
    pub fn nth(key: Key, n: usize) -> (r: Self)
        ensures
            r == PeekableKey::Nth(key, n),
    {
        PeekableKey::Nth(key, n)
    }

    /// Turns this key into the inner key.
    pub fn into_key(self) -> (r: Key)
        ensures
            r == self.spec_key(),
    {
        match self {
            PeekableKey::Peek(key) => key,
            PeekableKey::Nth(key, _) => key,
        }
    }
}

impl<Key: Default> Default for PeekableKey<Key> {
    /// A key that reaches the head with the default inner key.
    fn default() -> (r: Self)
        ensures
            r is Peek,
    {
        PeekableKey::Peek(Key::default())
    }
}

/// A cursor over owned items: the items from the head on are still to come;
/// those before it have been discarded.
pub struct Cursor<T> {
    items: Vec<T>,
    head: usize,
}

impl<T> Cursor<T> {
    #[verifier::type_invariant]
    spec fn head_in_range(self) -> bool {
        self.head <= self.items.len()
    }

    /// The items still to come, the head first.
    pub closed spec fn rest(self) -> Seq<T> {
        self.items@.subrange(self.head as int, self.items@.len() as int)
    }

    /// A cursor whose head is the first of `items`.
    pub fn new(items: Vec<T>) -> (r: Self)
        ensures
            r.rest() == items@,
    {
        let r = Cursor { items, head: 0 };
        assert(r.rest() =~= r.items@);
        r
    }

    /// The number of items still to come.
    pub fn len(&self) -> (r: usize)
        ensures
            r == self.rest().len(),
    {
        proof {
            use_type_invariant(self);
        }
        self.items.len() - self.head
    }

    /// Discards `n` items from the head, or all that are left when fewer are.
    fn advance(&mut self, n: usize)
        ensures
            n < old(self).rest().len() ==> final(self).rest() == old(self).rest().skip(n as int),
            n >= old(self).rest().len() ==> final(self).rest() == Seq::<T>::empty(),
    {
        proof {
            use_type_invariant(&*self);
        }
        if n < self.items.len() - self.head {
            self.head = self.head + n;
        } else {
            self.head = self.items.len();
        }
        proof {
            assert(self.rest() =~= old(self).rest().skip(n as int) || n >= old(self).rest().len());
            if n >= old(self).rest().len() {
                assert(self.rest() =~= Seq::<T>::empty());
            }
        }
    }
}

/// Moves the cursor as `key` asks and returns its inner key with the item
/// then at the head, if there is one.
fn peek_by_key<T, Key>(cursor: &mut Cursor<T>, key: PeekableKey<Key>) -> (r: (Key, Option<&mut T>))
    ensures
        r.0 == key.spec_key(),
        key.skipped() < old(cursor).rest().len() ==> {
            &&& r.1 is Some
            &&& *r.1->Some_0 == old(cursor).rest()[key.skipped() as int]
            &&& final(cursor).rest() == old(cursor).rest().skip(key.skipped() as int).update(0, *final(r.1->Some_0))
        },
        key.skipped() >= old(cursor).rest().len() ==> r.1 is None && final(cursor).rest() == Seq::<T>::empty(),
{
    let (inner, n) = match key {
        PeekableKey::Peek(inner) => (inner, 0),
        PeekableKey::Nth(inner, n) => (inner, n),
    };
    assert(n == key.skipped());
    cursor.advance(n);
    proof {
        use_type_invariant(&*cursor);
        assert(cursor.rest().len() == cursor.items@.len() - cursor.head);
    }
    if cursor.head < cursor.items.len() {
        let head = cursor.head;
        assert(cursor.rest()[0] == cursor.items@[head as int]);
        let item = &mut cursor.items[head];
        (inner, Some(item))
    } else {
        (inner, None)
    }
}

/// Items addressed by their distance from the head of the cursor: a key
/// first discards the items that it skips, then forwards its inner key to
/// the item that is then at the head. A cursor that runs out finds nothing.
impl<T, Key> Many<PeekableKey<Key>> for Cursor<T> where T: Many<Key> {
    type Ref = Option<T::Ref>;

    type Mut = Option<T::Mut>;

    open spec fn lookup_is_exact() -> bool {
        T::lookup_is_exact()
    }

    open spec fn ref_refusal_at(&self, key: PeekableKey<Key>) -> Option<MoveError> {
        if key.skipped() < self.rest().len() {
            self.rest()[key.skipped() as int].ref_refusal_at(key.spec_key())
        } else {
            None
        }
    }

    open spec fn moved_ref_at(
        &self,
        key: PeekableKey<Key>,
        after: &Self,
        r: Result<Self::Ref, MoveError>,
    ) -> bool {
        if key.skipped() < self.rest().len() {
            &&& after.rest() == self.rest().skip(key.skipped() as int).update(0, after.rest()[0])
            &&& moved_ref_through(
                &self.rest()[key.skipped() as int],
                key.spec_key(),
                &after.rest()[0],
                r,
            )
        } else {
            after.rest() == Seq::<T>::empty() && r == Ok::<Self::Ref, MoveError>(None)
        }
    }

    open spec fn mut_refusal_at(&self, key: PeekableKey<Key>) -> Option<MoveError> {
        if key.skipped() < self.rest().len() {
            self.rest()[key.skipped() as int].mut_refusal_at(key.spec_key())
        } else {
            None
        }
    }

    open spec fn moved_mut_at(
        &self,
        key: PeekableKey<Key>,
        after: &Self,
        r: Result<Self::Mut, MoveError>,
    ) -> bool {
        if key.skipped() < self.rest().len() {
            &&& after.rest() == self.rest().skip(key.skipped() as int).update(0, after.rest()[0])
            &&& moved_mut_through(
                &self.rest()[key.skipped() as int],
                key.spec_key(),
                &after.rest()[0],
                r,
            )
        } else {
            after.rest() == Seq::<T>::empty() && r == Ok::<Self::Mut, MoveError>(None)
        }
    }

    fn try_move_ref(&mut self, key: PeekableKey<Key>) -> (r: Result<Self::Ref, MoveError>) {
        let (inner, item) = peek_by_key(self, key);
        match item {
            Some(item) => match item.try_move_ref(inner) {
                Ok(shared) => Ok(Some(shared)),
                Err(e) => Err(e),
            },
            None => Ok(None),
        }
    }

    fn try_move_mut(&mut self, key: PeekableKey<Key>) -> (r: Result<Self::Mut, MoveError>) {
        let (inner, item) = peek_by_key(self, key);
        match item {
            Some(item) => match item.try_move_mut(inner) {
                Ok(unique) => Ok(Some(unique)),
                Err(e) => Err(e),
            },
            None => Ok(None),
        }
    }
}

} // verus!
