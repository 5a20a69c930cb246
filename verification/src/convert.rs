//! Conversions of plain values into `ReflectValueBox`.
use vstd::prelude::*;
use vstd::std_specs::convert::FromSpec;
use vstd::std_specs::convert::FromSpecImpl;
use crate::descriptor::EnumValueDescriptor;
use crate::value::DynamicMessage;
use crate::protobuf_value::ProtobufValue;
use crate::value::ReflectValueBox;
use crate::value::ValueView;

verus! {

impl From<u32> for ReflectValueBox {
    fn from(v: u32) -> (r: ReflectValueBox) {
        ReflectValueBox::U32(v)
    }
}

impl FromSpecImpl<u32> for ReflectValueBox {
    open spec fn obeys_from_spec() -> bool {
        true
    }

    open spec fn from_spec(v: u32) -> ReflectValueBox {
        ReflectValueBox::U32(v)
    }
}

impl From<u64> for ReflectValueBox {
    fn from(v: u64) -> (r: ReflectValueBox) {
        ReflectValueBox::U64(v)
    }
}

impl FromSpecImpl<u64> for ReflectValueBox {
    open spec fn obeys_from_spec() -> bool {
        true
    }

    open spec fn from_spec(v: u64) -> ReflectValueBox {
        ReflectValueBox::U64(v)
    }
}

impl From<i32> for ReflectValueBox {
    fn from(v: i32) -> (r: ReflectValueBox) {
        ReflectValueBox::I32(v)
    }
}

impl FromSpecImpl<i32> for ReflectValueBox {
    open spec fn obeys_from_spec() -> bool {
        true
    }

    open spec fn from_spec(v: i32) -> ReflectValueBox {
        ReflectValueBox::I32(v)
    }
}

impl From<i64> for ReflectValueBox {
    fn from(v: i64) -> (r: ReflectValueBox) {
        ReflectValueBox::I64(v)
    }
}

impl FromSpecImpl<i64> for ReflectValueBox {
    open spec fn obeys_from_spec() -> bool {
        true
    }

    open spec fn from_spec(v: i64) -> ReflectValueBox {
        ReflectValueBox::I64(v)
    }
}

impl From<bool> for ReflectValueBox {
    fn from(v: bool) -> (r: ReflectValueBox) {
        ReflectValueBox::Bool(v)
    }
}

impl FromSpecImpl<bool> for ReflectValueBox {
    open spec fn obeys_from_spec() -> bool {
        true
    }

    open spec fn from_spec(v: bool) -> ReflectValueBox {
        ReflectValueBox::Bool(v)
    }
}

impl From<String> for ReflectValueBox {
    fn from(v: String) -> (r: ReflectValueBox) {
        ReflectValueBox::String(v)
    }
}

impl FromSpecImpl<String> for ReflectValueBox {
    open spec fn obeys_from_spec() -> bool {
        true
    }

    open spec fn from_spec(v: String) -> ReflectValueBox {
        ReflectValueBox::String(v)
    }
}

impl From<Vec<u8>> for ReflectValueBox {
    fn from(v: Vec<u8>) -> (r: ReflectValueBox) {
        ReflectValueBox::Bytes(v)
    }
}

impl FromSpecImpl<Vec<u8>> for ReflectValueBox {
    open spec fn obeys_from_spec() -> bool {
        true
    }

    open spec fn from_spec(v: Vec<u8>) -> ReflectValueBox {
        ReflectValueBox::Bytes(v)
    }
}

impl From<Box<DynamicMessage>> for ReflectValueBox {
    fn from(v: Box<DynamicMessage>) -> (r: ReflectValueBox) {
        ReflectValueBox::Message(v)
    }
}

impl FromSpecImpl<Box<DynamicMessage>> for ReflectValueBox {
    open spec fn obeys_from_spec() -> bool {
        true
    }

    open spec fn from_spec(v: Box<DynamicMessage>) -> ReflectValueBox {
        ReflectValueBox::Message(v)
    }
}

impl<'a> From<&'a EnumValueDescriptor> for ReflectValueBox {
    fn from(v: &'a EnumValueDescriptor) -> (r: ReflectValueBox) {
        ReflectValueBox::from(v.clone())
    }
}

impl<'a> FromSpecImpl<&'a EnumValueDescriptor> for ReflectValueBox {
    open spec fn obeys_from_spec() -> bool {
        true
    }

    open spec fn from_spec(v: &'a EnumValueDescriptor) -> ReflectValueBox {
        ReflectValueBox::Enum(v.enum_descriptor, v.number)
    }
}

impl From<EnumValueDescriptor> for ReflectValueBox {
    fn from(v: EnumValueDescriptor) -> (r: ReflectValueBox) {
        ReflectValueBox::Enum(v.enum_descriptor().clone(), v.value())
    }
}

impl FromSpecImpl<EnumValueDescriptor> for ReflectValueBox {
    open spec fn obeys_from_spec() -> bool {
        true
    }

    open spec fn from_spec(v: EnumValueDescriptor) -> ReflectValueBox {
        ReflectValueBox::Enum(v.enum_descriptor, v.number)
    }
}

/// Converting a plain value into a box keeps it whole: the box holds that
/// very value, of the matching kind, and it is what downcasting the box
/// to the value's type gives back.
pub proof fn law_from_keeps_value(
    a: u32,
    b: u64,
    c: i32,
    d: i64,
    e: bool,
    f: String,
    g: Vec<u8>,
    h: EnumValueDescriptor,
    m: Box<DynamicMessage>,
)
    ensures
        <ReflectValueBox as FromSpec<u32>>::from_spec(a)@ == ValueView::U32(a),
        <ReflectValueBox as FromSpec<u64>>::from_spec(b)@ == ValueView::U64(b),
        <ReflectValueBox as FromSpec<i32>>::from_spec(c)@ == ValueView::I32(c),
        <ReflectValueBox as FromSpec<i64>>::from_spec(d)@ == ValueView::I64(d),
        <ReflectValueBox as FromSpec<bool>>::from_spec(e)@ == ValueView::Bool(e),
        <ReflectValueBox as FromSpec<String>>::from_spec(f)@ == ValueView::String(f@),
        <ReflectValueBox as FromSpec<Vec<u8>>>::from_spec(g)@ == ValueView::Bytes(g@),
        <ReflectValueBox as FromSpec<EnumValueDescriptor>>::from_spec(h)@ == ValueView::Enum(
            h.enum_descriptor.full_name@,
            h.number,
        ),
        <ReflectValueBox as FromSpec<Box<DynamicMessage>>>::from_spec(m)@ == ValueView::Message(
            (*m)@,
        ),
        <ReflectValueBox as FromSpec<u32>>::from_spec(a)@ == a.as_value_view(),
        <ReflectValueBox as FromSpec<u64>>::from_spec(b)@ == b.as_value_view(),
        <ReflectValueBox as FromSpec<i32>>::from_spec(c)@ == c.as_value_view(),
        <ReflectValueBox as FromSpec<i64>>::from_spec(d)@ == d.as_value_view(),
        <ReflectValueBox as FromSpec<bool>>::from_spec(e)@ == e.as_value_view(),
        <ReflectValueBox as FromSpec<String>>::from_spec(f)@ == f.as_value_view(),
        <ReflectValueBox as FromSpec<Vec<u8>>>::from_spec(g)@ == g.as_value_view(),
{
}

/// Different plain values convert into different boxes: no conversion
/// loses information.
pub proof fn law_from_injective(a1: u32, a2: u32, b1: u64, b2: u64, c1: i32, c2: i32, d1: i64, d2: i64)
    ensures
        <ReflectValueBox as FromSpec<u32>>::from_spec(a1)@ == <ReflectValueBox as FromSpec<
            u32,
        >>::from_spec(a2)@ ==> a1 == a2,
        <ReflectValueBox as FromSpec<u64>>::from_spec(b1)@ == <ReflectValueBox as FromSpec<
            u64,
        >>::from_spec(b2)@ ==> b1 == b2,
        <ReflectValueBox as FromSpec<i32>>::from_spec(c1)@ == <ReflectValueBox as FromSpec<
            i32,
        >>::from_spec(c2)@ ==> c1 == c2,
        <ReflectValueBox as FromSpec<i64>>::from_spec(d1)@ == <ReflectValueBox as FromSpec<
            i64,
        >>::from_spec(d2)@ ==> d1 == d2,
{
}

} // verus!
