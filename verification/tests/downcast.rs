use protobuf_reflect::DynamicMessage;
use protobuf_reflect::EnumDescriptor;
use protobuf_reflect::MessageDescriptor;
use protobuf_reflect::ProtobufValueSized;
use protobuf_reflect::ReflectValueBox;
use protobuf_reflect::ReflectValueRef;

#[test]
fn reflect_value_box_downcast_primitive() {
    assert_eq!(Ok(10), ReflectValueBox::U32(10).downcast::<u32>());
    assert_eq!(
        Err(ReflectValueBox::I32(10)),
        ReflectValueBox::I32(10).downcast::<u32>()
    );
}

#[test]
fn reflect_value_box_downcast_string() {
    assert_eq!(
        Ok("aa".to_owned()),
        ReflectValueBox::String("aa".to_owned()).downcast::<String>()
    );
    assert_eq!(
        Err(ReflectValueBox::String("aa".to_owned())),
        ReflectValueBox::String("aa".to_owned()).downcast::<u32>()
    );
    assert_eq!(
        Err(ReflectValueBox::Bool(false)),
        ReflectValueBox::Bool(false).downcast::<String>()
    );
}

#[test]
fn reflect_value_box_downcast_chars() {
    assert_eq!(
        Ok(String::from("aa".to_owned())),
        ReflectValueBox::String("aa".to_owned()).downcast::<String>()
    );
    assert_eq!(
        Err(ReflectValueBox::String("aa".to_owned())),
        ReflectValueBox::String("aa".to_owned()).downcast::<u32>()
    );
    assert_eq!(
        Err(ReflectValueBox::Bool(false)),
        ReflectValueBox::Bool(false).downcast::<String>()
    );
}

#[test]
fn downcast_every_primitive_to_its_own_type() {
    assert_eq!(Ok(7u64), ReflectValueBox::U64(7).downcast::<u64>());
    assert_eq!(Ok(-7i32), ReflectValueBox::I32(-7).downcast::<i32>());
    assert_eq!(Ok(-7i64), ReflectValueBox::I64(-7).downcast::<i64>());
    assert_eq!(Ok(true), ReflectValueBox::Bool(true).downcast::<bool>());
    assert_eq!(
        Ok(vec![1u8, 2, 3]),
        ReflectValueBox::Bytes(vec![1, 2, 3]).downcast::<Vec<u8>>()
    );
}

#[test]
fn downcast_to_another_type_hands_the_box_back() {
    assert_eq!(Err(ReflectValueBox::U32(1)), ReflectValueBox::U32(1).downcast::<u64>());
    assert_eq!(Err(ReflectValueBox::U64(1)), ReflectValueBox::U64(1).downcast::<i64>());
    assert_eq!(
        Err(ReflectValueBox::Bytes(vec![1])),
        ReflectValueBox::Bytes(vec![1]).downcast::<String>()
    );
    let d = EnumDescriptor::new("pkg.Color".to_owned());
    assert_eq!(
        Err(ReflectValueBox::Enum(d.clone(), 2)),
        ReflectValueBox::Enum(d, 2).downcast::<i32>()
    );
}

#[test]
fn downcast_message() {
    let m = DynamicMessage {
        descriptor: MessageDescriptor::new("pkg.M".to_owned()),
        fields: vec![],
    };
    let b = ReflectValueBox::from(m.clone_box());
    let back = b.downcast::<DynamicMessage>().unwrap();
    assert_eq!(back.descriptor, m.descriptor);
    assert!(ReflectValueBox::U32(1).downcast::<DynamicMessage>().is_err());
}

#[test]
fn downcast_clone_of_ref() {
    let r = ReflectValueRef::String("xy");
    assert_eq!(Ok("xy".to_owned()), r.downcast_clone::<String>());
    assert_eq!(Err(ReflectValueRef::String("xy")), r.downcast_clone::<u32>());
    assert_eq!(Ok(5u32), ReflectValueRef::U32(5).downcast_clone::<u32>());
}

#[test]
fn from_then_downcast_gives_the_value_back() {
    assert_eq!(Ok(3u32), ReflectValueBox::from(3u32).downcast::<u32>());
    assert_eq!(Ok(3u64), ReflectValueBox::from(3u64).downcast::<u64>());
    assert_eq!(Ok(-3i32), ReflectValueBox::from(-3i32).downcast::<i32>());
    assert_eq!(Ok(-3i64), ReflectValueBox::from(-3i64).downcast::<i64>());
    assert_eq!(Ok(false), ReflectValueBox::from(false).downcast::<bool>());
    assert_eq!(
        Ok("s".to_owned()),
        ReflectValueBox::from("s".to_owned()).downcast::<String>()
    );
    assert_eq!(Ok(vec![9u8]), ReflectValueBox::from(vec![9u8]).downcast::<Vec<u8>>());
}

#[test]
fn protobuf_value_sized_conversions() {
    assert_eq!(ReflectValueRef::U32(4), <u32 as ProtobufValueSized>::as_ref(&4));
    assert_eq!(ReflectValueRef::String("a"), <String as ProtobufValueSized>::as_ref(&"a".to_owned()));
    assert_eq!(5i64, i64::from_value_box(ReflectValueBox::I64(5)));
    let mut s = String::new();
    String::set_from_value_box(&mut s, ReflectValueBox::String("t".to_owned()));
    assert_eq!("t", s);
    assert_eq!(ReflectValueRef::U32(0), u32::default_value_ref());
    assert_eq!(ReflectValueRef::Bool(false), bool::default_value_ref());
    assert_eq!(ReflectValueRef::String(""), String::default_value_ref());
    assert_eq!(ReflectValueRef::Bytes(&[]), <Vec<u8>>::default_value_ref());
    assert!(u64::is_non_zero(&1));
    assert!(!u64::is_non_zero(&0));
    assert!(!String::is_non_zero(&String::new()));
    assert!(<Vec<u8>>::is_non_zero(&vec![0]));
}

#[test]
fn downcast_enum_value() {
    let d = EnumDescriptor::new("pkg.Color".to_owned());
    let v = ReflectValueBox::Enum(d.clone(), 2)
        .downcast::<protobuf_reflect::EnumValueDescriptor>()
        .unwrap();
    assert_eq!(&d, v.enum_descriptor());
    assert_eq!(2, v.value());
    match ReflectValueBox::I32(2).downcast::<protobuf_reflect::EnumValueDescriptor>() {
        Err(b) => assert_eq!(ReflectValueBox::I32(2), b),
        Ok(_) => panic!("an i32 is not an enum value"),
    }
}

#[test]
fn into_static_value_ref_of_numbers() {
    assert_eq!(ReflectValueRef::U32(3), u32::into_static_value_ref(3));
    assert_eq!(ReflectValueRef::U64(4), u64::into_static_value_ref(4));
    assert_eq!(ReflectValueRef::I32(-5), i32::into_static_value_ref(-5));
    assert_eq!(ReflectValueRef::I64(-6), i64::into_static_value_ref(-6));
    assert_eq!(ReflectValueRef::Bool(true), bool::into_static_value_ref(true));
}

#[test]
fn into_static_value_ref_of_empty_strings_and_bytes() {
    assert_eq!(ReflectValueRef::String(""), String::into_static_value_ref(String::new()));
    assert_eq!(ReflectValueRef::Bytes(&[]), <Vec<u8>>::into_static_value_ref(Vec::new()));
}
