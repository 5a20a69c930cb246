use std::collections::hash_map::DefaultHasher;
use std::hash::Hash;
use std::hash::Hasher;
use protobuf_reflect::DynamicFieldValue;
use protobuf_reflect::DynamicMessage;
use protobuf_reflect::EnumDescriptor;
use protobuf_reflect::EnumValueDescriptor;
use protobuf_reflect::MessageDescriptor;
use protobuf_reflect::MessageRef;
use protobuf_reflect::ReflectHashKey;
use protobuf_reflect::ReflectValueBox;
use protobuf_reflect::ReflectValueMut;
use protobuf_reflect::ReflectValueRef;

fn sample_message() -> DynamicMessage {
    DynamicMessage {
        descriptor: MessageDescriptor::new("pkg.M".to_owned()),
        fields: vec![
            DynamicFieldValue::Singular(Some(ReflectValueBox::Bytes(vec![1, 2]))),
            DynamicFieldValue::Repeated(vec![ReflectValueBox::I64(-4), ReflectValueBox::I64(5)]),
        ],
    }
}

#[test]
fn typed_getters_take_only_their_kind() {
    assert_eq!(Some(-1), ReflectValueRef::I32(-1).to_i32());
    assert_eq!(None, ReflectValueRef::I64(-1).to_i32());
    assert_eq!(Some(-1), ReflectValueRef::I64(-1).to_i64());
    assert_eq!(None, ReflectValueRef::U32(1).to_i64());
    assert_eq!(Some(1), ReflectValueRef::U32(1).to_u32());
    assert_eq!(None, ReflectValueRef::U64(1).to_u32());
    assert_eq!(Some(1), ReflectValueRef::U64(1).to_u64());
    assert_eq!(None, ReflectValueRef::Bool(true).to_u64());
    assert_eq!(Some(true), ReflectValueRef::Bool(true).to_bool());
    assert_eq!(None, ReflectValueRef::U32(1).to_bool());
    assert_eq!(Some(1.5f32.to_bits()), ReflectValueRef::F32(1.5f32.to_bits()).to_f32());
    assert_eq!(None, ReflectValueRef::F64(1.5f64.to_bits()).to_f32());
    assert_eq!(Some(2.5f64.to_bits()), ReflectValueRef::F64(2.5f64.to_bits()).to_f64());
    assert_eq!(None, ReflectValueRef::F32(1.5f32.to_bits()).to_f64());
    assert_eq!(Some("s"), ReflectValueRef::String("s").to_str());
    assert_eq!(None, ReflectValueRef::Bytes(b"s").to_str());
    assert_eq!(Some(&b"s"[..]), ReflectValueRef::Bytes(b"s").to_bytes());
    assert_eq!(None, ReflectValueRef::String("s").to_bytes());
    let m = sample_message();
    let r = ReflectValueRef::Message(MessageRef::new_message(&m));
    let got = r.to_message().unwrap();
    assert_eq!(got.descriptor, m.descriptor);
    assert!(ReflectValueRef::U32(0).to_message().is_none());
}

#[test]
fn is_non_zero_means_not_default() {
    assert!(!ReflectValueRef::U32(0)._is_non_zero());
    assert!(ReflectValueRef::U32(7)._is_non_zero());
    assert!(!ReflectValueRef::U64(0)._is_non_zero());
    assert!(ReflectValueRef::I32(-1)._is_non_zero());
    assert!(!ReflectValueRef::I64(0)._is_non_zero());
    assert!(!ReflectValueRef::F32(0.0f32.to_bits())._is_non_zero());
    assert!(!ReflectValueRef::F32((-0.0f32).to_bits())._is_non_zero());
    assert!(ReflectValueRef::F32(f32::NAN.to_bits())._is_non_zero());
    assert!(ReflectValueRef::F64(0.5f64.to_bits())._is_non_zero());
    assert!(!ReflectValueRef::F64((-0.0f64).to_bits())._is_non_zero());
    assert!(!ReflectValueRef::Bool(false)._is_non_zero());
    assert!(ReflectValueRef::Bool(true)._is_non_zero());
    assert!(!ReflectValueRef::String("")._is_non_zero());
    assert!(ReflectValueRef::String("a")._is_non_zero());
    assert!(!ReflectValueRef::Bytes(&[])._is_non_zero());
    assert!(ReflectValueRef::Bytes(&[0])._is_non_zero());
    let d = EnumDescriptor::new("pkg.E".to_owned());
    assert!(!ReflectValueRef::Enum(d.clone(), 0)._is_non_zero());
    assert!(ReflectValueRef::Enum(d, 3)._is_non_zero());
    let m = DynamicMessage { descriptor: MessageDescriptor::new("pkg.M".to_owned()), fields: vec![] };
    assert!(ReflectValueRef::Message(MessageRef::new_message(&m))._is_non_zero());
}

#[test]
fn to_box_and_as_value_ref_preserve_the_value() {
    let m = sample_message();
    let d = EnumDescriptor::new("pkg.E".to_owned());
    let refs = vec![
        ReflectValueRef::U32(1),
        ReflectValueRef::U64(2),
        ReflectValueRef::I32(-3),
        ReflectValueRef::I64(-4),
        ReflectValueRef::F32(1.25f32.to_bits()),
        ReflectValueRef::F64(2.5f64.to_bits()),
        ReflectValueRef::Bool(true),
        ReflectValueRef::String("str"),
        ReflectValueRef::Bytes(&[7, 8]),
        ReflectValueRef::Enum(d, 9),
        ReflectValueRef::Message(MessageRef::new_message(&m)),
    ];
    for r in &refs {
        let b = r.to_box();
        assert!(b == *r);
        assert!(b.as_value_ref() == *r);
        assert!(b.as_value_ref().to_box() == b);
    }
    match ReflectValueRef::String("str").to_box() {
        ReflectValueBox::String(s) => assert_eq!("str", s),
        other => panic!("unexpected {:?}", other),
    }
    match ReflectValueBox::Bytes(vec![3]).as_value_ref() {
        ReflectValueRef::Bytes(s) => assert_eq!(&[3u8][..], s),
        other => panic!("unexpected {:?}", other),
    }
}

#[test]
fn hash_keys() {
    assert_eq!(Some(ReflectHashKey::U32(1)), ReflectValueRef::U32(1).hash_key());
    assert_eq!(Some(ReflectHashKey::I64(-1)), ReflectValueRef::I64(-1).hash_key());
    assert_eq!(Some(ReflectHashKey::String("k")), ReflectValueRef::String("k").hash_key());
    assert_eq!(Some(ReflectHashKey::Bytes(&[1])), ReflectValueRef::Bytes(&[1]).hash_key());
    assert_eq!(Some(ReflectHashKey::Bool(true)), ReflectValueRef::Bool(true).hash_key());
    let a = EnumDescriptor::new("pkg.A".to_owned());
    assert_eq!(Some(ReflectHashKey::Enum(2)), ReflectValueRef::Enum(a, 2).hash_key());
    assert_eq!(None, ReflectValueRef::F32(0).hash_key());
    assert_eq!(None, ReflectValueRef::F64(0).hash_key());
    let m = sample_message();
    assert_eq!(None, ReflectValueRef::Message(MessageRef::new_message(&m)).hash_key());
    let b = ReflectValueBox::String("k".to_owned());
    assert_eq!(Some(ReflectHashKey::String("k")), b.hash_key());
}

#[test]
fn equal_values_hash_alike() {
    let h = |k: ReflectHashKey| {
        let mut s = DefaultHasher::new();
        k.hash(&mut s);
        s.finish()
    };
    let a = ReflectValueBox::String("same".to_owned());
    let b = ReflectValueRef::String("same");
    assert!(a == b);
    assert_eq!(h(a.hash_key().unwrap()), h(b.hash_key().unwrap()));
    let e1 = ReflectValueRef::Enum(EnumDescriptor::new("pkg.E".to_owned()), 4);
    let e2 = ReflectValueRef::Enum(EnumDescriptor::new("pkg.E".to_owned()), 4);
    assert!(e1 == e2);
    assert_eq!(h(e1.hash_key().unwrap()), h(e2.hash_key().unwrap()));
}

#[test]
fn conversions_from_plain_values() {
    assert!(ReflectValueBox::from(1u32) == ReflectValueBox::U32(1));
    assert!(ReflectValueBox::from(1u64) == ReflectValueBox::U64(1));
    assert!(ReflectValueBox::from(-1i32) == ReflectValueBox::I32(-1));
    assert!(ReflectValueBox::from(-1i64) == ReflectValueBox::I64(-1));
    assert!(ReflectValueBox::from(true) == ReflectValueBox::Bool(true));
    assert!(ReflectValueBox::from("s".to_owned()) == ReflectValueBox::String("s".to_owned()));
    assert!(ReflectValueBox::from(vec![1u8]) == ReflectValueBox::Bytes(vec![1]));
    let d = EnumDescriptor::new("pkg.E".to_owned());
    let v = EnumValueDescriptor::new(d.clone(), 5);
    assert!(ReflectValueBox::from(&v) == ReflectValueBox::Enum(d.clone(), 5));
    assert!(ReflectValueBox::from(v) == ReflectValueBox::Enum(d, 5));
    let m = sample_message();
    assert!(ReflectValueBox::from(m.clone_box()) == ReflectValueRef::Message(MessageRef::new_message(&m)));
}

#[test]
fn descriptors() {
    let d = EnumDescriptor::new("pkg.E".to_owned());
    assert_eq!("pkg.E", d.full_name);
    assert_eq!(d, d.clone());
    assert_ne!(d, EnumDescriptor::new("pkg.F".to_owned()));
    let v = EnumValueDescriptor::new(d.clone(), -2);
    assert_eq!(-2, v.value());
    assert_eq!(&d, v.enum_descriptor());
    let md = MessageDescriptor::new("pkg.M".to_owned());
    assert_eq!(md, md.clone());
    assert_ne!(md, MessageDescriptor::new("pkg.N".to_owned()));
}

#[test]
fn message_ref_denotes_its_message() {
    let m = sample_message();
    let r = MessageRef::new_message(&m);
    assert_eq!(m.descriptor, r.descriptor);
    assert_eq!(2, r.fields.len());
    let r2 = MessageRef::from(&m);
    assert_eq!(r.message().descriptor, r2.message().descriptor);
    let copy = r.clone_box();
    assert!(ReflectValueBox::Message(copy) == ReflectValueRef::Message(r2.clone()));
}

#[test]
fn value_mut_changes_the_message() {
    let mut m = sample_message();
    {
        let r = ReflectValueMut::Message(&mut m);
        match r {
            ReflectValueMut::Message(inner) => inner.fields.clear(),
        }
    }
    assert!(m.fields.is_empty());
}

#[test]
fn value_box_is_send_and_sync() {
    fn assert_send_sync<T: Send + Sync>() {}
    assert_send_sync::<ReflectValueBox>();
}

#[test]
fn clones_are_equal() {
    let m = sample_message();
    let b = ReflectValueBox::Message(m.clone_box());
    assert!(b.clone_value() == b);
    let r = ReflectValueRef::Message(MessageRef::new_message(&m));
    assert!(r.clone() == r);
}

#[test]
fn message_refs_borrow_the_same_message() {
    let m = sample_message();
    let r = MessageRef::new_message(&m);
    assert!(std::ptr::eq(&*r, &m));
    assert!(std::ptr::eq(&*r.clone(), &m));
    let v = ReflectValueRef::Message(r.clone());
    let got = v.to_message().unwrap();
    assert!(std::ptr::eq(&*got, &m));
    let b = ReflectValueBox::Message(m.clone_box());
    match (&b, b.as_value_ref()) {
        (ReflectValueBox::Message(inner), ReflectValueRef::Message(mr)) => {
            assert!(std::ptr::eq(&*mr, &**inner))
        }
        _ => panic!("expected a message"),
    }
}
