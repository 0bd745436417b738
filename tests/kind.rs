use ref_kind::RefKind;

#[test]
fn from_ref() {
    let number = 42;
    let number_ref = RefKind::from(&number);

    assert!(number_ref.is_ref());
    assert_eq!(RefKind::Ref(&42), number_ref);
}

#[test]
fn from_mut() {
    let mut number = 42;
    let number_mut = RefKind::from(&mut number);

    assert!(number_mut.is_mut());
    assert_eq!(RefKind::Mut(&mut 42), number_mut);
}

#[test]
fn shared_kind_gives_no_exclusive_view() {
    let number = 5;
    let mut kind = RefKind::Ref(&number);
    assert!(!kind.is_mut());
    assert_eq!(*kind.get_ref(), 5);
    assert!(kind.get_mut().is_none());
    assert!(RefKind::Ref(&number).into_mut().is_none());
    assert_eq!(*RefKind::Ref(&number).into_ref(), 5);
    assert_eq!(*RefKind::Ref(&number).unwrap_ref(), 5);
    assert_eq!(*kind, 5);
    let mut other = 6;
    assert_eq!(*RefKind::Mut(&mut other), 6);
}

#[test]
fn exclusive_kind_writes_through() {
    let mut number = 5;
    {
        let mut kind = RefKind::Mut(&mut number);
        assert!(!kind.is_ref());
        assert_eq!(*kind.get_ref(), 5);
        *kind.get_mut().unwrap() = 6;
        assert_eq!(*kind.get_ref(), 6);
        let unique = kind.into_mut().unwrap();
        *unique += 1;
    }
    assert_eq!(number, 7);
    let unique = RefKind::Mut(&mut number).unwrap_mut();
    *unique = 9;
    assert_eq!(number, 9);
    assert_eq!(*RefKind::Mut(&mut number).into_ref(), 9);
}
