use fimo_utils::optional::Optional;

#[test]
fn some_and_none_queries() {
    let a: Optional<u32> = Optional::Value(3);
    let b: Optional<u32> = Optional::Empty;
    assert!(a.is_some() && !a.is_none());
    assert!(b.is_none() && !b.is_some());
    assert_eq!(a.as_ref(), Optional::Value(&3));
    assert_eq!(b.as_ref(), Optional::Empty);
}

#[test]
fn unwrapping() {
    assert_eq!(Optional::Value(5u8).unwrap(), 5);
    assert_eq!(Optional::Value(5u8).expect("present"), 5);
    assert_eq!(Optional::Value(5u8).unwrap_or(1), 5);
    assert_eq!(Optional::<u8>::Empty.unwrap_or(1), 1);
    assert_eq!(Optional::<u8>::Empty.unwrap_or_else(|| 9), 9);
    assert_eq!(Optional::Value(2u8).unwrap_or_else(|| 9), 2);
}

#[test]
fn mapping() {
    assert_eq!(Optional::Value(2u32).map(|x| x * 10), Optional::Value(20));
    assert_eq!(Optional::<u32>::Empty.map(|x| x * 10), Optional::Empty);
    assert_eq!(Optional::Value(2u32).map_or(0, |x| x + 1), 3);
    assert_eq!(Optional::<u32>::Empty.map_or(0, |x| x + 1), 0);
    assert_eq!(Optional::Value(2u32).map_or_else(|| 7, |x| x + 1), 3);
    assert_eq!(Optional::<u32>::Empty.map_or_else(|| 7, |x| x + 1), 7);
}

#[test]
fn results_and_native_options() {
    assert_eq!(Optional::Value(1u8).ok_or("e"), Ok(1));
    assert_eq!(Optional::<u8>::Empty.ok_or("e"), Err("e"));
    assert_eq!(Optional::<u8>::Empty.ok_or_else(|| "f"), Err("f"));
    assert_eq!(Optional::Value(4u8).ok_or_else(|| "f"), Ok(4));
    assert_eq!(Optional::Value(4u8).into_rust(), Some(4));
    assert_eq!(Optional::<u8>::Empty.into_rust(), None);
    assert_eq!(Optional::from(Some(6u8)), Optional::Value(6));
    assert_eq!(Optional::<u8>::from(None), Optional::Empty);
    assert_eq!(Option::from(Optional::Value(6u8)), Some(6));
    assert_eq!(Optional::from(8u8), Optional::Value(8));
    assert_eq!(Optional::<u8>::default(), Optional::Empty);
    assert_eq!(Optional::Value(3u8).clone(), Optional::Value(3));
}

#[test]
fn option_round_trip() {
    for o in [None, Some(0u16), Some(65535)] {
        assert_eq!(Optional::from(o).into_rust(), o);
    }
}

#[test]
fn as_mut_writes_through() {
    let mut o = Optional::Value(3u8);
    if let Optional::Value(x) = o.as_mut() {
        *x = 5;
    }
    assert_eq!(o, Optional::Value(5));
    let mut e: Optional<u8> = Optional::Empty;
    assert!(e.as_mut().is_none());
}
