use vstd::prelude::*;

use crate::kind::RefKind;

verus! {

/// Why a reference could not be moved out of its slot.
#[derive(Debug, Copy, Clone, PartialEq, Eq, Structural, Hash)]
pub enum MoveError {
    /// The slot holds a shared reference, so no exclusive one can be had;
    /// a shared one still can.
    BorrowedImmutably,
    /// The exclusive reference has already left the slot; nothing more can be had.
    BorrowedMutably,
}

impl MoveError {
    /// Describes the error in words.
    pub fn message(&self) -> (r: &'static str)
        ensures
            *self is BorrowedImmutably ==> r@ == "reference was already borrowed immutably"@,
            *self is BorrowedMutably ==> r@ == "reference was already borrowed mutably"@,
    {
        match self {
            MoveError::BorrowedImmutably => "reference was already borrowed immutably",
            MoveError::BorrowedMutably => "reference was already borrowed mutably",
        }
    }
}

/// A slot out of which a shared reference can be moved while a copy of it
/// stays behind.
pub trait MoveRef: Sized {
    /// The shared reference handed out.
    type Ref;

    /// The error with which `move_ref` refuses `self`, if it does.
    spec fn ref_refusal(self) -> Option<MoveError>;

    /// `after` and `r` are what moving a shared reference out of `self`
    /// leaves in the slot and returns.
    spec fn moved_ref(self, after: Self, r: Result<Self::Ref, MoveError>) -> bool;

    /// Tries to move a shared reference out of the slot.
    fn move_ref(&mut self) -> (r: Result<Self::Ref, MoveError>)
        ensures
            Self::moved_ref(*old(self), *final(self), r),
            Self::ref_refusal(*old(self)) is None <==> r is Ok,
            r is Err ==> Self::ref_refusal(*old(self)) == Some(r->Err_0),
    ;
}

/// A slot out of which an exclusive reference can be moved, leaving nothing
/// behind that could alias it.
pub trait MoveMut: Sized {
    /// The exclusive reference handed out.
    type Mut;

    /// The error with which `move_mut` refuses `self`, if it does.
    spec fn mut_refusal(self) -> Option<MoveError>;

    /// `after` and `r` are what moving an exclusive reference out of `self`
    /// leaves in the slot and returns.
    spec fn moved_mut(self, after: Self, r: Result<Self::Mut, MoveError>) -> bool;

    /// Tries to move an exclusive reference out of the slot.
    fn move_mut(&mut self) -> (r: Result<Self::Mut, MoveError>)
        ensures
            Self::moved_mut(*old(self), *final(self), r),
            Self::mut_refusal(*old(self)) is None <==> r is Ok,
            r is Err ==> Self::mut_refusal(*old(self)) == Some(r->Err_0),
    ;
}

/// A slot out of which references of both kinds can be moved.
pub trait Move: MoveRef + MoveMut {

}

impl<T> Move for T where T: MoveRef + MoveMut {

}

/// A shared reference is copied out and stays as it is.
impl<'owner, T> MoveRef for &'owner T {
    type Ref = &'owner T;

    open spec fn ref_refusal(self) -> Option<MoveError> {
        None
    }

    open spec fn moved_ref(self, after: Self, r: Result<&'owner T, MoveError>) -> bool {
        after == self && r == Ok::<&'owner T, MoveError>(self)
    }

    fn move_ref(&mut self) -> (r: Result<&'owner T, MoveError>) {
        Ok(*self)
    }
}

/// A present shared reference is copied out and stays as it is.
impl<'owner, T> MoveRef for Option<&'owner T> {
    type Ref = &'owner T;

    open spec fn ref_refusal(self) -> Option<MoveError> {
        match self {
            Some(_) => None,
            None => Some(MoveError::BorrowedImmutably),
        }
    }

    open spec fn moved_ref(self, after: Self, r: Result<&'owner T, MoveError>) -> bool {
        after == self && match self {
            Some(shared) => r == Ok::<&'owner T, MoveError>(shared),
            None => r == Err::<&'owner T, MoveError>(MoveError::BorrowedImmutably),
        }
    }

    fn move_ref(&mut self) -> (r: Result<&'owner T, MoveError>) {
        match *self {
            Some(shared) => Ok(shared),
            None => Err(MoveError::BorrowedImmutably),
        }
    }
}

/// An exclusive reference leaves the slot and is handed out as a shared one.
impl<'owner, T> MoveRef for Option<&'owner mut T> {
    type Ref = &'owner T;

    open spec fn ref_refusal(self) -> Option<MoveError> {
        match self {
            Some(_) => None,
            None => Some(MoveError::BorrowedMutably),
        }
    }

    open spec fn moved_ref(self, after: Self, r: Result<&'owner T, MoveError>) -> bool {
        after is None && match self {
            Some(unique) => r is Ok && *r->Ok_0 == *unique,
            None => r == Err::<&'owner T, MoveError>(MoveError::BorrowedMutably),
        }
    }

    fn move_ref(&mut self) -> (r: Result<&'owner T, MoveError>) {
        match self.take() {
            Some(unique) => Ok(unique),
            None => Err(MoveError::BorrowedMutably),
        }
    }
}

/// An exclusive reference leaves the slot.
impl<'owner, T> MoveMut for Option<&'owner mut T> {
    type Mut = &'owner mut T;

    open spec fn mut_refusal(self) -> Option<MoveError> {
        match self {
            Some(_) => None,
            None => Some(MoveError::BorrowedMutably),
        }
    }

    open spec fn moved_mut(self, after: Self, r: Result<&'owner mut T, MoveError>) -> bool {
        after is None && match self {
            Some(unique) => r is Ok && *r->Ok_0 == *unique,
            None => r == Err::<&'owner mut T, MoveError>(MoveError::BorrowedMutably),
        }
    }

    fn move_mut(&mut self) -> (r: Result<&'owner mut T, MoveError>)
        ensures
            *old(self) is Some ==> *final(r->Ok_0) == *final((*old(self))->Some_0),
    {
        match self.take() {
            Some(unique) => Ok(unique),
            None => Err(MoveError::BorrowedMutably),
        }
    }
}

/// A shared reference is copied out of the slot; an exclusive one is
/// narrowed for good: the slot keeps a shared copy of what it handed out.
impl<'owner, T> MoveRef for Option<RefKind<'owner, T>> {
    type Ref = &'owner T;

    open spec fn ref_refusal(self) -> Option<MoveError> {
        match self {
            Some(_) => None,
            None => Some(MoveError::BorrowedMutably),
        }
    }

    open spec fn moved_ref(self, after: Self, r: Result<&'owner T, MoveError>) -> bool {
        match self {
            Some(kind) => r is Ok && *r->Ok_0 == kind.target() && after == Some(
                RefKind::Ref(r->Ok_0),
            ),
            None => after is None && r == Err::<&'owner T, MoveError>(MoveError::BorrowedMutably),
        }
    }

    fn move_ref(&mut self) -> (r: Result<&'owner T, MoveError>) {
        let kind = match self.take() {
            Some(kind) => kind,
            None => return Err(MoveError::BorrowedMutably),
        };
        let shared = kind.into_ref();
        *self = Some(RefKind::Ref(shared));
        Ok(shared)
    }
}

/// An exclusive reference leaves the slot, which is left empty; a shared
/// one blocks the move and stays where it is.
impl<'owner, T> MoveMut for Option<RefKind<'owner, T>> {
    type Mut = &'owner mut T;

    open spec fn mut_refusal(self) -> Option<MoveError> {
        match self {
            Some(RefKind::Mut(_)) => None,
            Some(RefKind::Ref(_)) => Some(MoveError::BorrowedImmutably),
            None => Some(MoveError::BorrowedMutably),
        }
    }

    open spec fn moved_mut(self, after: Self, r: Result<&'owner mut T, MoveError>) -> bool {
        match self {
            Some(RefKind::Mut(unique)) => after is None && r is Ok && *r->Ok_0 == *unique,
            Some(RefKind::Ref(_)) => after == self && r == Err::<&'owner mut T, MoveError>(
                MoveError::BorrowedImmutably,
            ),
            None => after is None && r == Err::<&'owner mut T, MoveError>(
                MoveError::BorrowedMutably,
            ),
        }
    }

    fn move_mut(&mut self) -> (r: Result<&'owner mut T, MoveError>)
        ensures
            *old(self) is Some && (*old(self))->Some_0 is Mut ==> *final(r->Ok_0)
                == *final((*old(self))->Some_0->Mut_0),
    {
        let kind = match self.take() {
            Some(kind) => kind,
            None => return Err(MoveError::BorrowedMutably),
        };
        match kind {
            RefKind::Ref(shared) => {
                *self = Some(RefKind::Ref(shared));
                Err(MoveError::BorrowedImmutably)
            },
            RefKind::Mut(unique) => Ok(unique),
        }
    }
}

} // verus!
