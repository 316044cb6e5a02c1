use fimo_utils::array_string::{encode_char, ArrayString, FromUtf8Error};
use std::convert::TryFrom;

#[test]
fn new_is_empty() {
    let s = ArrayString::<8>::new();
    assert!(s.is_empty());
    assert_eq!(s.len(), 0);
    assert_eq!(s.capacity(), 8);
    assert_eq!(s.as_str(), "");
}

#[test]
fn push_str_appends_and_reports_overflow() {
    let mut s = ArrayString::<5>::new();
    assert!(s.push_str("abc").is_ok());
    assert_eq!(s.as_str(), "abc");
    let err = s.push_str("def").unwrap_err();
    assert_eq!(err.as_str(), "def");
    assert_eq!(err.available_capacity(), 5);
    assert_eq!(err.required_capacity(), 6);
    assert_eq!(s.as_str(), "abc");
    assert!(s.push_str("de").is_ok());
    assert_eq!(s.as_str(), "abcde");
    assert_eq!(s.len(), 5);
}

#[test]
fn push_char_multibyte() {
    let mut s = ArrayString::<4>::new();
    assert!(s.push('ä').is_ok());
    assert_eq!(s.len(), 2);
    assert!(s.push('€').is_err());
    let err = s.push('€').unwrap_err();
    assert_eq!(err.as_char(), '€');
    assert_eq!(err.available_capacity(), 4);
    assert_eq!(err.required_capacity(), 5);
    assert!(s.push('b').is_ok());
    assert_eq!(s.as_str(), "äb");
}

#[test]
fn encode_char_matches_std() {
    for ch in ['a', 'ß', '€', '😀', '\u{7f}', '\u{80}', '\u{7ff}', '\u{800}', '\u{ffff}', '\u{10000}', '\u{10ffff}'] {
        let mut buf = [0u8; 4];
        assert_eq!(encode_char(ch).as_slice(), ch.encode_utf8(&mut buf).as_bytes());
    }
}

#[test]
fn from_utf8_checks_capacity_then_encoding() {
    match ArrayString::<2>::from_utf8(b"abc") {
        Err(FromUtf8Error::CapacityError { available, required }) => {
            assert_eq!(available, 2);
            assert_eq!(required, 3);
        }
        _ => panic!("expected a capacity error"),
    }
    assert!(matches!(ArrayString::<4>::from_utf8(&[0xff, 0x00]), Err(FromUtf8Error::Utf8Error(_))));
    let s = ArrayString::<4>::from_utf8("añ".as_bytes()).ok().unwrap();
    assert_eq!(s.as_str(), "añ");
    assert_eq!(s.as_bytes(), "añ".as_bytes());
}

#[test]
fn clear_empties() {
    let mut s = ArrayString::<4>::try_from("abcd").ok().unwrap();
    assert_eq!(s.len(), 4);
    s.clear();
    assert!(s.is_empty());
}

#[test]
fn try_from_and_equality() {
    let a = ArrayString::<4>::try_from("ab").ok().unwrap();
    let b = ArrayString::<4>::try_from("ab").ok().unwrap();
    let c = ArrayString::<4>::try_from('x').ok().unwrap();
    assert!(a == b);
    assert!(a != c);
    assert!(a.clone() == a);
    assert!(ArrayString::<1>::try_from("ab").is_err());
    assert!(ArrayString::<1>::try_from('ä').is_err());
    assert!(ArrayString::<4>::default().is_empty());
}

#[test]
fn error_messages() {
    let mut s = ArrayString::<5>::new();
    s.push_str("abc").ok().unwrap();
    let err = s.push_str("def").unwrap_err();
    assert_eq!(err.to_string(), "capacity exceeded: available 5, required 6, string def");

    let mut t = ArrayString::<4>::new();
    t.push('ä').ok().unwrap();
    let err = t.push('€').unwrap_err();
    assert_eq!(err.to_string(), "capacity exceeded: available 4, required 5, char €");

    match ArrayString::<2>::from_utf8(b"abcdefghijklm") {
        Err(e) => assert_eq!(e.to_string(), "capacity exceeded: available 2, required 13"),
        Ok(_) => panic!("expected a capacity error"),
    }
    match ArrayString::<8>::from_utf8(&[b'a', 0xff]) {
        Err(e) => assert_eq!(e.to_string(), std::str::from_utf8(&[b'a', 0xff]).unwrap_err().to_string()),
        Ok(_) => panic!("expected an encoding error"),
    }
    match ArrayString::<0>::from_utf8(b"a") {
        Err(e) => assert_eq!(e.to_string(), "capacity exceeded: available 0, required 1"),
        Ok(_) => panic!("expected a capacity error"),
    }
    match ArrayString::<1000>::from_utf8(&[b'a'; 1234]) {
        Err(e) => assert_eq!(e.to_string(), "capacity exceeded: available 1000, required 1234"),
        Ok(_) => panic!("expected a capacity error"),
    }
}
