use fimo_utils::obj_arc::{data_offset_align, is_dangling};
use fimo_utils::obj_span::{from_mut, from_raw_parts_inner, from_ref, ConstSpan, MutSpan, SpanInner};
use fimo_utils::obj_str::{from_utf8, from_utf8_mut, from_utf8_unchecked, ConstStr, MutStr};
use fimo_utils::ptr::{
    align_of_val, from_raw, from_raw_parts, interface_id, interface_name, into_raw, object_id,
    object_name, size_of_val, IdBytes, ObjMetadata, ObjMetadataInterface, ObjectId, VTableHead,
};
use fimo_utils::raw::{try_cast, try_cast_obj};
use fimo_utils::uuid::{new_uuid, Uuid};

struct Widget;
struct Gadget;
struct IShape;
struct IColor;

impl ObjectId for Widget {
    // Specification item of the trait; it is never called at run time.
    fn spec_object_id() -> IdBytes {
        unreachable!()
    }
    fn object_id() -> Uuid {
        new_uuid(1, 2, 3, 4)
    }
    fn object_name() -> &'static str {
        "Widget"
    }
}

impl ObjectId for Gadget {
    // Specification item of the trait; it is never called at run time.
    fn spec_object_id() -> IdBytes {
        unreachable!()
    }
    fn object_id() -> Uuid {
        new_uuid(9, 9, 9, 9)
    }
    fn object_name() -> &'static str {
        "Gadget"
    }
}

impl ObjMetadataInterface for IShape {
    // Specification item of the trait; it is never called at run time.
    fn spec_interface_id() -> IdBytes {
        unreachable!()
    }
    fn interface_id() -> Uuid {
        new_uuid(0xa, 0, 0, 1)
    }
    fn interface_name() -> &'static str {
        "IShape"
    }
}

impl ObjMetadataInterface for IColor {
    // Specification item of the trait; it is never called at run time.
    fn spec_interface_id() -> IdBytes {
        unreachable!()
    }
    fn interface_id() -> Uuid {
        new_uuid(0xb, 0, 0, 2)
    }
    fn interface_name() -> &'static str {
        "IColor"
    }
}

fn widget_head() -> &'static VTableHead {
    Box::leak(Box::new(VTableHead::new_embedded::<Widget, IShape>(None, 24)))
}

#[test]
fn uuid_layout_is_big_endian() {
    let u = new_uuid(0x01020304, 0x0506, 0x0708, 0x090a0b0c0d0e0f10);
    let expected: Vec<u8> = (1u8..=16).collect();
    assert_eq!(u.as_bytes().to_vec(), expected);
    let v = uuid::Uuid::from_fields(0x01020304, 0x0506, 0x0708, &0x090a0b0c0d0e0f10u64.to_be_bytes());
    assert_eq!(u.as_bytes(), v.as_bytes());
    assert!(Uuid::nil() == Uuid::from_bytes([0; 16]));
    assert!(u != Uuid::nil());
    assert!(u.equals(&Uuid::from_bytes(*u.as_bytes())));
}

#[test]
fn metadata_reads_the_head() {
    let head = widget_head();
    let m: ObjMetadata<IShape> = ObjMetadata::new(head);
    assert_eq!(m.size_of(), std::mem::size_of::<Widget>());
    assert_eq!(m.align_of(), std::mem::align_of::<Widget>());
    assert_eq!(m.vtable_offset(), 24);
    assert_eq!(m.object_name(), "Widget");
    assert_eq!(m.interface_name(), "IShape");
    assert!(m.object_id() == new_uuid(1, 2, 3, 4));
    assert!(m.interface_id() == new_uuid(0xa, 0, 0, 1));
    assert!(m.is::<Widget>());
    assert!(!m.is::<Gadget>());
    assert!(m.is_interface::<IShape>());
    assert!(!m.is_interface::<IColor>());
    assert_eq!(VTableHead::new::<Widget, IShape>(Some(5)).__internal_vtable_offset, 0);
}

#[test]
fn object_pointers() {
    let m: ObjMetadata<IShape> = ObjMetadata::new(widget_head());
    let obj = from_raw_parts(0x1000, m);
    assert_eq!(size_of_val(obj), std::mem::size_of::<Widget>());
    assert_eq!(align_of_val(obj), std::mem::align_of::<Widget>());
    assert_eq!(object_name(obj), "Widget");
    assert_eq!(interface_name(obj), "IShape");
    assert!(object_id(obj) == new_uuid(1, 2, 3, 4));
    assert!(interface_id(obj) == new_uuid(0xa, 0, 0, 1));
    let raw = into_raw(obj);
    let back = from_raw(raw);
    assert_eq!(back.as_addr(), 0x1000);
    assert_eq!(back.downcast::<Widget>(), Some(0x1000));
    assert_eq!(back.downcast::<Gadget>(), None);
    assert!(back.is_interface::<IShape>());
}

#[test]
fn checked_casts() {
    let m: ObjMetadata<IShape> = ObjMetadata::new(widget_head());
    let obj = from_raw_parts(0x2000, m);
    let ok = try_cast::<IShape, IShape>(obj).ok().unwrap();
    assert_eq!(ok.as_addr(), 0x2000);
    let err = try_cast::<IColor, IShape>(obj).err().unwrap();
    assert_eq!(err.required, "IColor");
    assert_eq!(err.available, "IShape");
    assert!(err.required_id == new_uuid(0xb, 0, 0, 2));
    assert!(err.available_id == new_uuid(0xa, 0, 0, 1));
    assert_eq!(err.obj.as_addr(), 0x2000);
    assert_eq!(try_cast_obj::<Widget, IShape>(obj).ok(), Some(0x2000));
    let err = try_cast_obj::<Gadget, IShape>(obj).err().unwrap();
    assert_eq!(err.required, "Gadget");
    assert_eq!(err.available, "Widget");
}

#[test]
fn spans_over_slices() {
    let data = [1u8, 2, 3];
    let s: ConstSpan<u8> = ConstSpan::from(&data[..]);
    assert_eq!(&*s, &[1, 2, 3]);
    assert_eq!(s.as_ref(), &[1, 2, 3]);
    let back: &[u8] = s.into();
    assert_eq!(back, &[1, 2, 3]);
    let one = from_ref(&5u32);
    assert_eq!(&*one, &[5]);
    let mut x = 7u32;
    let m: MutSpan<u32> = from_mut(&mut x);
    assert_eq!(&*m, &[7]);
    let c: ConstSpan<u32> = m.into();
    assert_eq!(c.len(), 1);
    let mut buf = [4u8, 5];
    let ms: MutSpan<u8> = MutSpan::from(&mut buf[..]);
    let r: &[u8] = ms.into();
    assert_eq!(r, &[4, 5]);
    let empty: ConstSpan<u8> = Default::default();
    assert!(empty.is_empty());
    let inner: SpanInner<u64, false> = from_raw_parts_inner(0x40, 3);
    assert_eq!(inner.as_ptr(), 0x40);
    assert_eq!(inner.length(), 3);
    let dflt: SpanInner<u64, true> = Default::default();
    assert_eq!(dflt.as_ptr(), std::mem::align_of::<u64>());
    assert_eq!(SpanInner::<u64, false>::from(dflt).length(), 0);
}

#[test]
fn strings_over_bytes() {
    let s = from_utf8("grüße".as_bytes()).ok().unwrap();
    assert_eq!(&*s, "grüße");
    assert!(from_utf8(&[0xc3, 0x28]).is_err());
    let mut bytes = *b"abc";
    let m = from_utf8_mut(&mut bytes).ok().unwrap();
    assert_eq!(&*m, "abc");
    let mut bad = [0xffu8];
    assert!(from_utf8_mut(&mut bad).is_err());
    assert_eq!(&*from_utf8_unchecked(b"xyz"), "xyz");
    let a = ConstStr::from("same");
    let b = ConstStr::from("same");
    assert!(a == b);
    assert!(a != ConstStr::from("other"));
    let text: &str = a.into();
    assert_eq!(text, "same");
    let mut owned = String::from("mut");
    let ms = MutStr::from(owned.as_mut_str());
    assert_eq!(&*ms, "mut");
    let cs = ConstStr::from(ms);
    assert_eq!(&*cs, "mut");
    assert_eq!(&*ConstStr::default(), "");
}

#[test]
fn arc_layout() {
    let header = 2 * std::mem::size_of::<usize>();
    assert_eq!(data_offset_align(1) as usize, header);
    assert_eq!(data_offset_align(8) as usize, header);
    assert_eq!(data_offset_align(32) as usize, 32.max(header));
    assert_eq!(data_offset_align(64) as usize, 64);
    assert!(is_dangling(usize::MAX));
    assert!(!is_dangling(0x1000));
}

#[test]
fn strings_compare_across_kinds() {
    let c = ConstStr::from("grüße");
    assert!(c == "grüße");
    assert!(c != "gruße");
    let mut owned = String::from("grüße");
    let m = MutStr::from(owned.as_mut_str());
    assert!(m == "grüße");
    assert!(m == c);
    assert!(c == m);
    assert!(m != ConstStr::from("grüß"));
}
