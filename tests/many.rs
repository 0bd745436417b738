use ref_kind::iter::{Cursor, PeekableKey};
use ref_kind::{Many, MoveError, MoveMut, MoveRef, RefKind};
use std::collections::{BTreeMap, HashMap, VecDeque};

#[test]
fn squares_in_slots() {
    let mut array: [usize; 10] = std::array::from_fn(|i| i * i);
    let mut many = array
        .iter_mut()
        .map(|unique| Some(RefKind::Mut(unique)))
        .collect::<Vec<_>>();

    let one = many.try_move_mut(1).unwrap().unwrap();
    assert_eq!(*one, 1);
    assert_eq!(many.try_move_mut(1), Err(MoveError::BorrowedMutably));

    let four = many.try_move_ref(4).unwrap().unwrap();
    assert_eq!(*four, 16);
    let four_again = many.try_move_ref(4).unwrap().unwrap();
    assert_eq!(four, four_again);
    assert_eq!(many.try_move_ref(1), Err(MoveError::BorrowedMutably));
    assert_eq!(many.try_move_mut(4), Err(MoveError::BorrowedImmutably));
}

#[test]
fn one_exclusive_entry_in_hash_map() {
    let mut seven = 7;
    let mut map = HashMap::new();
    map.insert("k", Some(RefKind::Mut(&mut seven)));
    assert_eq!(map.try_move_ref("k"), Ok(Some(&7)));
    assert_eq!(map.try_move_mut("k"), Err(MoveError::BorrowedImmutably));
}

#[test]
fn missing_key_finds_nothing() {
    let number = 3;
    let mut vec = vec![Some(RefKind::Ref(&number))];
    assert_eq!(vec.try_move_ref(1), Ok(None));
    assert_eq!(vec.try_move_mut(7), Ok(None));
    assert_eq!(vec.as_mut_slice().try_move_ref(1), Ok(None));
    let mut deque: VecDeque<Option<RefKind<i32>>> = VecDeque::new();
    assert_eq!(deque.try_move_ref(0), Ok(None));
    let mut tree: BTreeMap<u8, Option<RefKind<i32>>> = BTreeMap::new();
    tree.insert(1, Some(RefKind::Ref(&number)));
    assert_eq!(tree.try_move_mut(2), Ok(None));
    let mut hash: HashMap<u8, Option<RefKind<i32>>> = HashMap::new();
    assert_eq!(hash.try_move_ref(0), Ok(None));
    let mut cursor = Cursor::new(vec![Some(RefKind::Ref(&number))]);
    assert_eq!(cursor.try_move_ref(PeekableKey::nth((), 1)), Ok(None));
}

#[test]
fn adapters_forward_to_the_slot() {
    let mut a = 1;
    let mut b = 2;
    let mut deque = VecDeque::new();
    deque.push_back(Some(RefKind::Mut(&mut a)));
    assert_eq!(deque.try_move_ref(0), Ok(Some(&1)));
    assert_eq!(deque.try_move_mut(0), Err(MoveError::BorrowedImmutably));
    let mut tree = BTreeMap::new();
    tree.insert("b", Some(RefKind::Mut(&mut b)));
    let unique = tree.try_move_mut("b").unwrap().unwrap();
    *unique = 20;
    assert_eq!(tree.try_move_ref("b"), Err(MoveError::BorrowedMutably));
    assert_eq!(b, 20);
}

#[test]
fn nested_brokers_share_the_key() {
    let x = 5;
    let mut nested = vec![vec![None, Some(RefKind::Ref(&x))], vec![Some(RefKind::Ref(&x))]];
    assert_eq!(nested.try_move_ref(1), Ok(Some(None)));
    assert_eq!(nested.try_move_ref(0), Err(MoveError::BorrowedMutably));
    assert_eq!(nested.try_move_ref(2), Ok(None));
    let mut single = vec![vec![Some(RefKind::Ref(&x))]];
    assert_eq!(single.try_move_ref(0), Ok(Some(Some(&5))));
}

#[test]
fn panicking_wrappers_on_allowed_moves() {
    let mut n = 8;
    let mut slots = vec![Some(RefKind::Mut(&mut n))];
    let shared = slots.move_ref(0).unwrap();
    assert_eq!(*shared, 8);
    let m = 4;
    let mut more = vec![Some(RefKind::Ref(&m))];
    assert_eq!(more.move_ref(0), Some(&4));
    let mut k = 1;
    let mut last = vec![Some(RefKind::Mut(&mut k))];
    *last.move_mut(0).unwrap() = 2;
    assert_eq!(k, 2);
}

#[test]
fn plain_reference_slots() {
    let v = 3;
    let mut shared: &i32 = &v;
    assert_eq!(MoveRef::move_ref(&mut shared), Ok(&3));
    let mut present: Option<&i32> = Some(&v);
    assert_eq!(MoveRef::move_ref(&mut present), Ok(&3));
    assert_eq!(present, Some(&3));
    let mut absent: Option<&i32> = None;
    assert_eq!(MoveRef::move_ref(&mut absent), Err(MoveError::BorrowedImmutably));
    let mut w = 4;
    let mut unique: Option<&mut i32> = Some(&mut w);
    assert_eq!(MoveRef::move_ref(&mut unique), Ok(&4));
    assert_eq!(MoveRef::move_ref(&mut unique), Err(MoveError::BorrowedMutably));
    let mut z = 5;
    let mut unique: Option<&mut i32> = Some(&mut z);
    *MoveMut::move_mut(&mut unique).unwrap() = 50;
    assert!(MoveMut::move_mut(&mut unique).is_err());
    assert_eq!(z, 50);
}

#[test]
fn error_messages() {
    assert_eq!(MoveError::BorrowedImmutably.message(), "reference was already borrowed immutably");
    assert_eq!(MoveError::BorrowedMutably.message(), "reference was already borrowed mutably");
}
