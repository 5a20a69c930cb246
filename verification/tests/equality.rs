use protobuf_reflect::float_bits::f32_bits_eq;
use protobuf_reflect::float_bits::f32_bits_is_nan;
use protobuf_reflect::float_bits::f64_bits_eq;
use protobuf_reflect::float_bits::f64_bits_is_nan;
use protobuf_reflect::DynamicFieldValue;
use protobuf_reflect::DynamicMessage;
use protobuf_reflect::EnumDescriptor;
use protobuf_reflect::MessageDescriptor;
use protobuf_reflect::MessageRef;
use protobuf_reflect::ReflectEq;
use protobuf_reflect::ReflectEqMode;
use protobuf_reflect::ReflectValueBox;
use protobuf_reflect::ReflectValueRef;

fn f32_samples() -> Vec<f32> {
    vec![
        0.0,
        -0.0,
        1.0,
        -1.0,
        1.5,
        f32::MIN_POSITIVE,
        f32::MAX,
        f32::INFINITY,
        f32::NEG_INFINITY,
        f32::NAN,
        -f32::NAN,
        f32::from_bits(0x7f80_0001),
        f32::from_bits(0x7fc0_1234),
        f32::from_bits(1),
    ]
}

fn f64_samples() -> Vec<f64> {
    vec![
        0.0,
        -0.0,
        1.0,
        -2.5,
        f64::MIN_POSITIVE,
        f64::MAX,
        f64::INFINITY,
        f64::NEG_INFINITY,
        f64::NAN,
        -f64::NAN,
        f64::from_bits(0x7ff0_0000_0000_0001),
        f64::from_bits(1),
    ]
}

#[test]
fn float_bit_predicates_agree_with_ieee() {
    for a in f32_samples() {
        assert_eq!(a.is_nan(), f32_bits_is_nan(a.to_bits()));
        for b in f32_samples() {
            assert_eq!(a == b, f32_bits_eq(a.to_bits(), b.to_bits()));
        }
    }
    for a in f64_samples() {
        assert_eq!(a.is_nan(), f64_bits_is_nan(a.to_bits()));
        for b in f64_samples() {
            assert_eq!(a == b, f64_bits_eq(a.to_bits(), b.to_bits()));
        }
    }
}

#[test]
fn float_values_compare_as_floats() {
    let zero = ReflectValueRef::F32(0.0f32.to_bits());
    let neg_zero = ReflectValueRef::F32((-0.0f32).to_bits());
    let nan = ReflectValueRef::F32(f32::NAN.to_bits());
    assert!(zero == neg_zero);
    assert!(nan != nan);
    assert!(nan != zero);
    let one = ReflectValueRef::F64(1.0f64.to_bits());
    let nan64 = ReflectValueRef::F64(f64::NAN.to_bits());
    assert!(one == ReflectValueRef::F64(1.0f64.to_bits()));
    assert!(nan64 != nan64);
}

#[test]
fn reflect_eq_nan_mode() {
    let nan_equal = ReflectEqMode { nan_equal: true };
    let nan_differs = ReflectEqMode { nan_equal: false };
    let nan = ReflectValueRef::F32(f32::NAN.to_bits());
    let other_nan = ReflectValueRef::F32(f32::from_bits(0x7fc0_1234).to_bits());
    let one = ReflectValueRef::F32(1.0f32.to_bits());
    assert!(nan.reflect_eq(&other_nan, &nan_equal));
    assert!(!nan.reflect_eq(&other_nan, &nan_differs));
    assert!(!nan.reflect_eq(&one, &nan_equal));
    assert!(!one.reflect_eq(&nan, &nan_equal));
    assert!(one.reflect_eq(&one, &nan_differs));
    let z = ReflectValueRef::F64(0.0f64.to_bits());
    let nz = ReflectValueRef::F64((-0.0f64).to_bits());
    assert!(z.reflect_eq(&nz, &nan_differs));
    let nan64 = ReflectValueRef::F64(f64::NAN.to_bits());
    assert!(nan64.reflect_eq(&nan64, &nan_equal));
    assert!(!nan64.reflect_eq(&nan64, &nan_differs));
}

#[test]
fn eq_of_scalars_and_kinds() {
    assert!(ReflectValueRef::U32(3) == ReflectValueRef::U32(3));
    assert!(ReflectValueRef::U32(3) != ReflectValueRef::U32(4));
    assert!(ReflectValueRef::U32(3) != ReflectValueRef::U64(3));
    assert!(ReflectValueRef::I32(-1) != ReflectValueRef::I64(-1));
    assert!(ReflectValueRef::Bool(true) == ReflectValueRef::Bool(true));
    assert!(ReflectValueRef::String("ab") == ReflectValueRef::String("ab"));
    assert!(ReflectValueRef::String("ab") != ReflectValueRef::String("abc"));
    assert!(ReflectValueRef::String("é") != ReflectValueRef::String("e"));
    assert!(ReflectValueRef::Bytes(&[1, 2]) == ReflectValueRef::Bytes(&[1, 2]));
    assert!(ReflectValueRef::Bytes(&[1, 2]) != ReflectValueRef::Bytes(&[2, 1]));
    assert!(ReflectValueRef::String("a") != ReflectValueRef::Bytes(b"a"));
}

#[test]
fn enum_values_need_the_same_enum_type() {
    let color = EnumDescriptor::new("pkg.Color".to_owned());
    let shape = EnumDescriptor::new("pkg.Shape".to_owned());
    let a = ReflectValueRef::Enum(color.clone(), 1);
    assert!(a == ReflectValueRef::Enum(color.clone(), 1));
    assert!(a != ReflectValueRef::Enum(color, 2));
    assert!(a != ReflectValueRef::Enum(shape, 1));
}

#[test]
fn box_and_ref_compare_by_value() {
    let b = ReflectValueBox::String("x".to_owned());
    assert!(b == ReflectValueBox::String("x".to_owned()));
    assert!(b == ReflectValueRef::String("x"));
    assert!(ReflectValueRef::String("x") == b);
    assert!(b != ReflectValueRef::String("y"));
    assert!(ReflectValueBox::F32(f32::NAN.to_bits()) != ReflectValueBox::F32(f32::NAN.to_bits()));
}

fn person(name: &str, age: Option<u32>, tags: Vec<f32>) -> DynamicMessage {
    DynamicMessage {
        descriptor: MessageDescriptor::new("pkg.Person".to_owned()),
        fields: vec![
            DynamicFieldValue::Singular(Some(ReflectValueBox::String(name.to_owned()))),
            DynamicFieldValue::Singular(age.map(ReflectValueBox::U32)),
            DynamicFieldValue::Repeated(
                tags.into_iter().map(|t| ReflectValueBox::F32(t.to_bits())).collect(),
            ),
        ],
    }
}

#[test]
fn messages_compare_field_by_field() {
    let a = person("ann", Some(3), vec![1.0]);
    let b = person("ann", Some(3), vec![1.0]);
    let c = person("ann", None, vec![1.0]);
    let d = person("ann", Some(3), vec![1.0, 2.0]);
    let e = person("bob", Some(3), vec![1.0]);
    let ra = ReflectValueRef::Message(MessageRef::new_message(&a));
    assert!(ra == ReflectValueRef::Message(MessageRef::new_message(&b)));
    assert!(ra != ReflectValueRef::Message(MessageRef::new_message(&c)));
    assert!(ra != ReflectValueRef::Message(MessageRef::new_message(&d)));
    assert!(ra != ReflectValueRef::Message(MessageRef::new_message(&e)));
    let other_type = DynamicMessage {
        descriptor: MessageDescriptor::new("pkg.Other".to_owned()),
        fields: a.clone_box().fields,
    };
    assert!(ra != ReflectValueRef::Message(MessageRef::new_message(&other_type)));
}

#[test]
fn messages_with_nan_fields() {
    let a = person("ann", None, vec![f32::NAN]);
    let ra = ReflectValueRef::Message(MessageRef::new_message(&a));
    assert!(ra != ra.clone());
    assert!(ra.reflect_eq(&ra.clone(), &ReflectEqMode { nan_equal: true }));
    assert!(!ra.reflect_eq(&ra.clone(), &ReflectEqMode { nan_equal: false }));
}

#[test]
fn nested_messages_compare_deeply() {
    let inner1 = person("x", Some(1), vec![]);
    let inner2 = person("x", Some(2), vec![]);
    let outer = |inner: &DynamicMessage| DynamicMessage {
        descriptor: MessageDescriptor::new("pkg.Outer".to_owned()),
        fields: vec![DynamicFieldValue::Singular(Some(ReflectValueBox::Message(inner.clone_box())))],
    };
    let o1 = outer(&inner1);
    let o1b = outer(&inner1);
    let o2 = outer(&inner2);
    assert!(ReflectValueBox::Message(o1.clone_box()) == ReflectValueBox::Message(o1b.clone_box()));
    assert!(ReflectValueBox::Message(o1.clone_box()) != ReflectValueBox::Message(o2.clone_box()));
}
