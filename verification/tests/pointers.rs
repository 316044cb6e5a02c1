use fimo_utils::arc::{Arc, ArcVTable, Weak, WeakVTable};
use fimo_utils::error::{Error, ErrorData, ErrorRef, ErrorVTable};
use fimo_utils::non_null_const::NonNullConst;
use fimo_utils::span::{ConstSpan, MutSpan, Span};

#[test]
fn non_null_const_rejects_null() {
    assert!(NonNullConst::<u32>::new(0).is_none());
    let p = NonNullConst::<u32>::new(0x1000).unwrap();
    assert_eq!(p.as_ptr(), 0x1000);
    assert_eq!(p.into_mut(), 0x1000);
    assert_eq!(p.cast::<u8>().as_ptr(), 0x1000);
    assert_eq!(NonNullConst::<u64>::dangling().as_ptr(), std::mem::align_of::<u64>());
    assert_eq!(NonNullConst::<u8>::new_unchecked(7).as_ptr(), 7);
    assert!(p == p.clone());
    assert!(p != NonNullConst::<u32>::new(0x2000).unwrap());
}

#[test]
fn span_emptiness() {
    let s: ConstSpan<u8> = Span::new();
    assert!(s.is_empty());
    assert_eq!(s.len(), 0);
    assert_eq!(s.as_ptr(), 0);
    let t: ConstSpan<u8> = Span::from_raw_parts(0x10, 4);
    assert!(!t.is_empty());
    assert_eq!(t.len(), 4);
    assert_eq!(t.as_ptr(), 0x10);
    let null_len: ConstSpan<u8> = Span::from_raw_parts(0, 4);
    assert!(null_len.is_empty());
    let mut m: MutSpan<u16> = Span::from_raw_parts_mut(0x20, 0);
    assert!(m.is_empty());
    assert_eq!(m.as_ptr_mut(), 0x20);
    let d: ConstSpan<u32> = Default::default();
    assert!(d.is_empty());
}

#[test]
fn arc_raw_parts_round_trip() {
    let data = NonNullConst::<u32>::new(0x100).unwrap();
    let vtable = NonNullConst::<ArcVTable<u32>>::new(0x200).unwrap();
    let a = Arc::from_raw(data, vtable);
    let (d, v) = a.into_raw();
    assert_eq!(d.as_ptr(), 0x100);
    assert_eq!(v.as_ptr(), 0x200);

    let wvtable = NonNullConst::<WeakVTable<u32>>::new(0x300).unwrap();
    let w = Weak::from_raw(data, wvtable);
    let (d, v) = w.into_raw();
    assert_eq!(d.as_ptr(), 0x100);
    assert_eq!(v.as_ptr(), 0x300);
}

#[test]
fn error_raw_parts_round_trip() {
    let vtable = NonNullConst::<ErrorVTable>::new(0x40).unwrap();
    let data = NonNullConst::<ErrorData>::new(0x80);
    let e = ErrorRef::from_raw(data, vtable);
    let (d, v) = e.into_raw();
    assert_eq!(d.unwrap().as_ptr(), 0x80);
    assert_eq!(v.as_ptr(), 0x40);

    let owned = Error::from_raw(None, vtable);
    let (d, v) = owned.into_raw();
    assert!(d.is_none());
    assert_eq!(v.as_ptr(), 0x40);
}
