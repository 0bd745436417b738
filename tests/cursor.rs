use ref_kind::iter::{Cursor, PeekableKey};
use ref_kind::{Many, MoveError, RefKind};

#[test]
fn nth_discards_then_reaches_the_head() {
    let mut values = [0, 1, 2, 3];
    let slots: Vec<_> = values.iter_mut().map(|v| Some(RefKind::Mut(v))).collect();
    let mut cursor = Cursor::new(slots);
    assert_eq!(cursor.len(), 4);

    let two = cursor.try_move_mut(PeekableKey::nth((), 2)).unwrap().unwrap();
    assert_eq!(*two, 2);
    assert_eq!(cursor.len(), 2);
    assert_eq!(cursor.try_move_ref(PeekableKey::peek(())), Err(MoveError::BorrowedMutably));
    let three = cursor.try_move_ref(PeekableKey::nth((), 1)).unwrap().unwrap();
    assert_eq!(*three, 3);
    assert_eq!(cursor.len(), 1);
    assert_eq!(cursor.try_move_ref(PeekableKey::next(())), Ok(Some(&3)));
    assert_eq!(cursor.try_move_ref(PeekableKey::nth((), 1)), Ok(None));
    assert_eq!(cursor.len(), 0);
}

#[test]
fn peekable_key_parts() {
    assert_eq!(PeekableKey::peek(7), PeekableKey::Peek(7));
    assert_eq!(PeekableKey::next(7), PeekableKey::Nth(7, 0));
    assert_eq!(PeekableKey::nth(7, 3), PeekableKey::Nth(7, 3));
    assert_eq!(PeekableKey::Nth(9, 3).into_key(), 9);
    assert_eq!(PeekableKey::Peek(4).into_key(), 4);
    assert_eq!(PeekableKey::<u8>::default(), PeekableKey::Peek(0));
}
