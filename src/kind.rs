use vstd::prelude::*;

verus! {

/// A reference of either kind to a target of type `T`: a shared one, which
/// may be copied freely, or an exclusive one, which must stay unique.
#[derive(Debug, PartialEq, Eq, PartialOrd, Ord, Hash)]
pub enum RefKind<'a, T> {
    /// Shared (read-only) reference.
    Ref(&'a T),
    /// Exclusive (read-write) reference.
    Mut(&'a mut T),
}

impl<'a, T> RefKind<'a, T> {
    /// The value that the held reference points at.
    pub open spec fn target(self) -> T {
        match self {
            RefKind::Ref(r) => *r,
            RefKind::Mut(m) => *m,
        }
    }

    /// Checks whether the held reference is shared.
    pub fn is_ref(&self) -> (r: bool)
        ensures
            r == (*self is Ref),
    {
        match self {
            RefKind::Ref(_) => true,
            RefKind::Mut(_) => false,
        }
    }

    /// Checks whether the held reference is exclusive.
    pub fn is_mut(&self) -> (r: bool)
        ensures
            r == (*self is Mut),
    {
        match self {
            RefKind::Ref(_) => false,
            RefKind::Mut(_) => true,
        }
    }

    /// A shared view of the target, whichever kind is held; the kind is left as it is.
    pub fn get_ref(&self) -> (r: &T)
        ensures
            *r == self.target(),
    {
        match self {
            RefKind::Ref(shared) => shared,
            RefKind::Mut(unique) => unique,
        }
    }

    /// An exclusive view of the target, or `None` when the held reference is shared.
    pub fn get_mut(&mut self) -> (r: Option<&mut T>)
        ensures
            *old(self) is Ref ==> r is None && *final(self) == *old(self),
            *old(self) is Mut ==> r is Some && *r->Some_0 == old(self).target(),
            *old(self) is Mut ==> *final(self) is Mut,
            *old(self) is Mut ==> final(self).target() == *final(r->Some_0),
    {
        match self {
            RefKind::Ref(_) => None,
            RefKind::Mut(unique) => Some(unique),
        }
    }

    /// Consumes the value and returns a shared reference with the owner's
    /// lifetime; an exclusive reference is narrowed to a shared one.
    pub fn into_ref(self) -> (r: &'a T)
        ensures
            *r == self.target(),
    {
        match self {
            RefKind::Ref(shared) => shared,
            RefKind::Mut(unique) => unique,
        }
    }

    /// Consumes the value and returns the exclusive reference with the
    /// owner's lifetime, or `None` when the held reference is shared.
    pub fn into_mut(self) -> (r: Option<&'a mut T>)
        ensures
            self is Ref ==> r is None,
            self is Mut ==> r is Some && *r->Some_0 == *self->Mut_0,
            self is Mut ==> *final(r->Some_0) == *final(self->Mut_0),
    {
        match self {
            RefKind::Ref(_) => None,
            RefKind::Mut(unique) => Some(unique),
        }
    }

    /// Returns the shared reference that is held.
    pub fn unwrap_ref(self) -> (r: &'a T)
        requires
            self is Ref,
        ensures
            *r == self.target(),
    {
        match self {
            RefKind::Ref(shared) => shared,
            RefKind::Mut(unique) => unique,
        }
    }

    /// Returns the exclusive reference that is held.
    pub fn unwrap_mut(self) -> (r: &'a mut T)
        requires
            self is Mut,
        ensures
            *r == *self->Mut_0,
            *final(r) == *final(self->Mut_0),
    {
        match self {
            RefKind::Ref(_) => vstd::pervasive::unreached(),
            RefKind::Mut(unique) => unique,
        }
    }
}

impl<'a, T> std::ops::Deref for RefKind<'a, T> {
    type Target = T;

    /// The target, whichever kind of reference is held.
    fn deref(&self) -> (r: &T)
        ensures
            *r == self.target(),
    {
        match self {
            RefKind::Ref(shared) => shared,
            RefKind::Mut(unique) => unique,
        }
    }
}

impl<'a, T> From<&'a T> for RefKind<'a, T> {
    /// Wraps a shared reference.
    fn from(shared: &'a T) -> (r: Self)
        ensures
            r == RefKind::Ref(shared),
    {
        RefKind::Ref(shared)
    }
}

impl<'a, T> vstd::std_specs::convert::FromSpecImpl<&'a T> for RefKind<'a, T> {
    open spec fn obeys_from_spec() -> bool {
        true
    }

    open spec fn from_spec(shared: &'a T) -> Self {
        RefKind::Ref(shared)
    }
}

impl<'a, T> From<&'a mut T> for RefKind<'a, T> {
    /// Wraps an exclusive reference.
    fn from(unique: &'a mut T) -> (r: Self)
        ensures
            r is Mut,
            r.target() == *old(unique),
    {
        RefKind::Mut(unique)
    }
}

/// The exclusive reference that `from` stores is a reborrow of its
/// argument, which spec equality cannot name, so no `from_spec` is claimed.
impl<'a, T> vstd::std_specs::convert::FromSpecImpl<&'a mut T> for RefKind<'a, T> {
    open spec fn obeys_from_spec() -> bool {
        false
    }

    open spec fn from_spec(unique: &'a mut T) -> Self {
        RefKind::Mut(unique)
    }
}

} // verus!
