use ref_kind::{Many, MoveError, RefKind, RefKindMap};
use std::collections::HashMap;

#[test]
fn from_hash_map() {
    let mut map = HashMap::new();
    map.insert("Hello, World", 0);
    map.insert("Answer", 42);

    let mut map = map
        .iter_mut()
        .map(|(&k, v)| (k, v))
        .collect::<RefKindMap<_, _>>();
    let hello = map.move_mut(&"Hello, World").unwrap();
    let answer = map.move_mut(&"Answer").unwrap();
    assert_eq!(*hello, 0);
    assert_eq!(*answer, 42);
}

#[test]
fn multiple_ref() {
    let number = 0;
    let mut map = [("Hello, World", &number)]
        .into_iter()
        .collect::<RefKindMap<_, _>>();

    let first = map.move_ref(&"Hello, World").unwrap();
    let second = map.move_ref(&"Hello, World").unwrap();
    assert_eq!(first, second);
}

#[test]
fn shared_move_blocks_exclusive_move() {
    let mut seven = 7;
    let mut map: RefKindMap<&str, i32> = RefKindMap::new();
    map.insert_ref_mut("k", &mut seven);

    let shared = map.try_move_ref("k");
    assert_eq!(shared, Ok(Some(&7)));
    assert_eq!(map.try_move_mut("k"), Err(MoveError::BorrowedImmutably));
    assert!(map.get(&"k").unwrap().as_ref().unwrap().is_ref());
    assert_eq!(map.try_move_ref("k"), Ok(Some(&7)));
}

#[test]
fn exclusive_move_empties_the_slot() {
    let mut three = 3;
    let mut map: RefKindMap<u32, i32> = RefKindMap::with_capacity(4);
    map.insert_ref_mut(1, &mut three);

    let unique = map.try_move_mut(1).unwrap().unwrap();
    *unique = 30;
    assert_eq!(map.try_move_mut(1), Err(MoveError::BorrowedMutably));
    assert_eq!(map.try_move_ref(1), Err(MoveError::BorrowedMutably));
    assert_eq!(map.get(&1), Some(&None));
    assert_eq!(three, 30);
}

#[test]
fn absent_key_is_no_error_in_map() {
    let one = 1;
    let mut map: RefKindMap<u32, i32> = RefKindMap::new();
    map.insert_ref(1, &one);
    assert_eq!(map.try_move_ref(2), Ok(None));
    assert_eq!(map.try_move_mut(2), Ok(None));
    assert_eq!(map.move_ref(&2), None);
    assert_eq!(map.move_mut(&2), None);
    assert_eq!(map.get_ref(&2), None);
    assert!(map.get_ref_mut(&2).is_none());
}

#[test]
fn insert_and_remove_slots() {
    let one = 1;
    let mut two = 2;
    let mut map: RefKindMap<u32, i32> = RefKindMap::default();
    assert!(map.is_empty());
    assert_eq!(map.insert_ref(1, &one), None);
    assert_eq!(map.insert_ref(1, &one), Some(RefKind::Ref(&1)));
    assert!(map.try_insert_ref_mut(2, &mut two).is_ok());
    assert_eq!(map.len(), 2);
    assert!(map.contains_key(&2));
    assert_eq!(map.try_insert_ref(2, &one), Err(RefKind::Ref(&1)));
    assert_eq!(map.get_key_value(&1), Some((&1, &Some(RefKind::Ref(&1)))));
    assert_eq!(map.get_key_ref(&2), Some((&2, &2)));
    *map.get_ref_mut(&2).unwrap() = 20;
    assert_eq!(map.get_ref(&2), Some(&20));
    assert_eq!(map.remove_entry(&1), Some((1, Some(RefKind::Ref(&1)))));
    assert_eq!(map.remove(&1), None);
    assert!(map.remove(&2).is_some());
    assert!(map.is_empty());
    assert_eq!(two, 20);
}

#[test]
fn whole_map_operations() {
    let values = [10, 20, 30];
    let mut map: RefKindMap<usize, i32> = RefKindMap::with_hasher(std::collections::hash_map::RandomState::new());
    map.extend(values.iter().enumerate());
    map.reserve(8);
    assert!(map.capacity() >= 3);
    assert!(map.try_reserve(8).is_ok());
    map.shrink_to_fit();
    map.shrink_to(3);
    let _ = map.hasher();
    assert_eq!(map.keys().count(), 3);
    assert_eq!(map.values().count(), 3);
    assert_eq!(map.iter().count(), 3);
    assert_eq!(map.values_mut().count(), 3);
    assert_eq!(map.iter_mut().count(), 3);
    map.retain(|k, _| *k != 0);
    assert_eq!(map.len(), 2);
    let mut drained = map.drain();
    drained.sort_by_key(|e| e.0);
    assert_eq!(drained.len(), 2);
    assert_eq!(drained[0].0, 1);
    assert!(map.is_empty());
    map.extend(values.iter().enumerate());
    *map.entry(5).or_insert(None) = Some(RefKind::Ref(&values[0]));
    assert_eq!(map.len(), 4);
    let mut keys = map.into_keys();
    keys.sort();
    assert_eq!(keys, vec![0, 1, 2, 5]);
    let mut other: RefKindMap<usize, i32> = RefKindMap::with_capacity_and_hasher(2, Default::default());
    other.insert_ref(0, &values[2]);
    assert_eq!(other.into_values(), vec![Some(RefKind::Ref(&30))]);
    let mut cleared: RefKindMap<usize, i32> = RefKindMap::new();
    cleared.insert_ref(0, &values[1]);
    cleared.clear();
    assert!(cleared.is_empty());
}
