//! Typed access to reflective values: the types a `ReflectValueBox` can be
//! converted to, and the conversions themselves.
use vstd::prelude::*;
use crate::descriptor::EnumValueDescriptor;
use crate::value::DynamicMessage;
use crate::value::ReflectValueBox;
use crate::value::ValueView;
use crate::value_ref::view_is_non_zero;
use crate::value_ref::ReflectValueRef;

verus! {

/// What converting `value_box` to `V` may return: the value it holds when
/// that is a value of `V`, and otherwise `value_box` itself, unchanged.
pub open spec fn downcast_result<V: ProtobufValue>(
    value_box: ReflectValueBox,
    r: Result<V, ReflectValueBox>,
) -> bool {
    match r {
        Ok(v) => v.as_value_view() == value_box@,
        Err(b) => b == value_box && forall|v: V| #[trigger] v.as_value_view() != value_box@,
    }
}

/// Type implemented by all protobuf singular types
/// (primitives, string, messages, enums).
///
/// Used for dynamic casting in reflection.
pub trait ProtobufValue: Sized {
    /// The reflective value that `self` is.
    spec fn as_value_view(self) -> ValueView;

    /// Takes the value out of `value_box` when it holds a value of this
    /// type; otherwise hands `value_box` back.
    fn try_from_value_box(value_box: ReflectValueBox) -> (r: Result<Self, ReflectValueBox>)
        ensures
            match r {
                Ok(v) => v.as_value_view() == value_box@,
                Err(b) => b == value_box && forall|v: Self| #[trigger] v.as_value_view() != value_box@,
            },
    ;
}

/// Sized version of [`ProtobufValue`].
pub trait ProtobufValueSized: ProtobufValue {
    /// Pointer to a dynamic reference.
    fn as_ref(value: &Self) -> (r: ReflectValueRef<'_>)
        ensures
            r@ == value.as_value_view(),
    ;

    /// Construct a value from given reflective value, which must hold a
    /// value of this type.
    fn from_value_box(value_box: ReflectValueBox) -> (r: Self)
        requires
            exists|v: Self| #[trigger] v.as_value_view() == value_box@,
        ensures
            r.as_value_view() == value_box@,
    ;

    /// Write the value, which must be of this type.
    fn set_from_value_box(target: &mut Self, value_box: ReflectValueBox)
        requires
            exists|v: Self| #[trigger] v.as_value_view() == value_box@,
        ensures
            final(target).as_value_view() == value_box@,
    ;

    /// Default value for this type.
    fn default_value_ref() -> (r: ReflectValueRef<'static>)
        ensures
            exists|v: Self| #[trigger] v.as_value_view() == r@,
            !view_is_non_zero(r@),
    ;

    /// Value is non-default?
    fn is_non_zero(value: &Self) -> (r: bool)
        ensures
            r == view_is_non_zero(value.as_value_view()),
    ;

    /// Whether `into_static_value_ref` converts `value`: every number and
    /// `bool`, and the empty string and empty bytes (the only strings and
    /// bytes a `'static` reference can be made of without leaking memory).
    spec fn static_value_ref_ok(value: Self) -> bool;

    /// Convert a value into a ref value if possible.
    fn into_static_value_ref(value: Self) -> (r: ReflectValueRef<'static>)
        requires
            Self::static_value_ref_ok(value),
        ensures
            r@ == value.as_value_view(),
    ;
}

impl ReflectValueBox {
    /// Downcast to real typed value.
    pub fn downcast<V: ProtobufValue>(self) -> (r: Result<V, ReflectValueBox>)
        ensures
            downcast_result(self, r),
    {
        V::try_from_value_box(self)
    }
}

impl<'a> ReflectValueRef<'a> {
    /// Convert a value to arbitrary value.
    pub fn downcast_clone<V: ProtobufValue>(&self) -> (r: Result<V, ReflectValueRef<'a>>)
        ensures
            match r {
                Ok(v) => v.as_value_view() == self@,
                Err(e) => e == *self && forall|v: V| #[trigger] v.as_value_view() != self@,
            },
    {
        match self.to_box().downcast::<V>() {
            Ok(v) => Ok(v),
            Err(_) => Err(self.clone()),
        }
    }
}

impl ProtobufValue for u32 {
    open spec fn as_value_view(self) -> ValueView {
        ValueView::U32(self)
    }

    fn try_from_value_box(value_box: ReflectValueBox) -> (r: Result<u32, ReflectValueBox>) {
        match value_box {
            ReflectValueBox::U32(v) => Ok(v),
            b => Err(b),
        }
    }
}

impl ProtobufValueSized for u32 {
    fn as_ref(value: &u32) -> (r: ReflectValueRef<'_>) {
        ReflectValueRef::U32(*value)
    }

    fn from_value_box(value_box: ReflectValueBox) -> (r: u32) {
        match value_box {
            ReflectValueBox::U32(v) => v,
            _ => {
                proof {
                    assert(false);
                }
                0
            },
        }
    }

    fn set_from_value_box(target: &mut u32, value_box: ReflectValueBox) {
        *target = Self::from_value_box(value_box);
    }

    fn default_value_ref() -> (r: ReflectValueRef<'static>)
        ensures
            r == ReflectValueRef::U32(0),
    {
        let r = ReflectValueRef::U32(0);
        assert(0u32.as_value_view() == r@);
        r
    }

    fn is_non_zero(value: &u32) -> (r: bool) {
        *value != 0
    }

    open spec fn static_value_ref_ok(value: Self) -> bool {
        true
    }

    fn into_static_value_ref(value: u32) -> (r: ReflectValueRef<'static>) {
        ReflectValueRef::U32(value)
    }
}

impl ProtobufValue for u64 {
    open spec fn as_value_view(self) -> ValueView {
        ValueView::U64(self)
    }

    fn try_from_value_box(value_box: ReflectValueBox) -> (r: Result<u64, ReflectValueBox>) {
        match value_box {
            ReflectValueBox::U64(v) => Ok(v),
            b => Err(b),
        }
    }
}

impl ProtobufValueSized for u64 {
    fn as_ref(value: &u64) -> (r: ReflectValueRef<'_>) {
        ReflectValueRef::U64(*value)
    }

    fn from_value_box(value_box: ReflectValueBox) -> (r: u64) {
        match value_box {
            ReflectValueBox::U64(v) => v,
            _ => {
                proof {
                    assert(false);
                }
                0
            },
        }
    }

    fn set_from_value_box(target: &mut u64, value_box: ReflectValueBox) {
        *target = Self::from_value_box(value_box);
    }

    fn default_value_ref() -> (r: ReflectValueRef<'static>)
        ensures
            r == ReflectValueRef::U64(0),
    {
        let r = ReflectValueRef::U64(0);
        assert(0u64.as_value_view() == r@);
        r
    }

    fn is_non_zero(value: &u64) -> (r: bool) {
        *value != 0
    }

    open spec fn static_value_ref_ok(value: Self) -> bool {
        true
    }

    fn into_static_value_ref(value: u64) -> (r: ReflectValueRef<'static>) {
        ReflectValueRef::U64(value)
    }
}

impl ProtobufValue for i32 {
    open spec fn as_value_view(self) -> ValueView {
        ValueView::I32(self)
    }

    fn try_from_value_box(value_box: ReflectValueBox) -> (r: Result<i32, ReflectValueBox>) {
        match value_box {
            ReflectValueBox::I32(v) => Ok(v),
            b => Err(b),
        }
    }
}

impl ProtobufValueSized for i32 {
    fn as_ref(value: &i32) -> (r: ReflectValueRef<'_>) {
        ReflectValueRef::I32(*value)
    }

    fn from_value_box(value_box: ReflectValueBox) -> (r: i32) {
        match value_box {
            ReflectValueBox::I32(v) => v,
            _ => {
                proof {
                    assert(false);
                }
                0
            },
        }
    }

    fn set_from_value_box(target: &mut i32, value_box: ReflectValueBox) {
        *target = Self::from_value_box(value_box);
    }

    fn default_value_ref() -> (r: ReflectValueRef<'static>)
        ensures
            r == ReflectValueRef::I32(0),
    {
        let r = ReflectValueRef::I32(0);
        assert(0i32.as_value_view() == r@);
        r
    }

    fn is_non_zero(value: &i32) -> (r: bool) {
        *value != 0
    }

    open spec fn static_value_ref_ok(value: Self) -> bool {
        true
    }

    fn into_static_value_ref(value: i32) -> (r: ReflectValueRef<'static>) {
        ReflectValueRef::I32(value)
    }
}

impl ProtobufValue for i64 {
    open spec fn as_value_view(self) -> ValueView {
        ValueView::I64(self)
    }

    fn try_from_value_box(value_box: ReflectValueBox) -> (r: Result<i64, ReflectValueBox>) {
        match value_box {
            ReflectValueBox::I64(v) => Ok(v),
            b => Err(b),
        }
    }
}

impl ProtobufValueSized for i64 {
    fn as_ref(value: &i64) -> (r: ReflectValueRef<'_>) {
        ReflectValueRef::I64(*value)
    }

    fn from_value_box(value_box: ReflectValueBox) -> (r: i64) {
        match value_box {
            ReflectValueBox::I64(v) => v,
            _ => {
                proof {
                    assert(false);
                }
                0
            },
        }
    }

    fn set_from_value_box(target: &mut i64, value_box: ReflectValueBox) {
        *target = Self::from_value_box(value_box);
    }

    fn default_value_ref() -> (r: ReflectValueRef<'static>)
        ensures
            r == ReflectValueRef::I64(0),
    {
        let r = ReflectValueRef::I64(0);
        assert(0i64.as_value_view() == r@);
        r
    }

    fn is_non_zero(value: &i64) -> (r: bool) {
        *value != 0
    }

    open spec fn static_value_ref_ok(value: Self) -> bool {
        true
    }

    fn into_static_value_ref(value: i64) -> (r: ReflectValueRef<'static>) {
        ReflectValueRef::I64(value)
    }
}

impl ProtobufValue for bool {
    open spec fn as_value_view(self) -> ValueView {
        ValueView::Bool(self)
    }

    fn try_from_value_box(value_box: ReflectValueBox) -> (r: Result<bool, ReflectValueBox>) {
        match value_box {
            ReflectValueBox::Bool(v) => Ok(v),
            b => Err(b),
        }
    }
}

impl ProtobufValueSized for bool {
    fn as_ref(value: &bool) -> (r: ReflectValueRef<'_>) {
        ReflectValueRef::Bool(*value)
    }

    fn from_value_box(value_box: ReflectValueBox) -> (r: bool) {
        match value_box {
            ReflectValueBox::Bool(v) => v,
            _ => {
                proof {
                    assert(false);
                }
                false
            },
        }
    }

    fn set_from_value_box(target: &mut bool, value_box: ReflectValueBox) {
        *target = Self::from_value_box(value_box);
    }

    fn default_value_ref() -> (r: ReflectValueRef<'static>)
        ensures
            r == ReflectValueRef::Bool(false),
    {
        let r = ReflectValueRef::Bool(false);
        assert(false.as_value_view() == r@);
        r
    }

    fn is_non_zero(value: &bool) -> (r: bool) {
        *value
    }

    open spec fn static_value_ref_ok(value: Self) -> bool {
        true
    }

    fn into_static_value_ref(value: bool) -> (r: ReflectValueRef<'static>) {
        ReflectValueRef::Bool(value)
    }
}

impl ProtobufValue for String {
    open spec fn as_value_view(self) -> ValueView {
        ValueView::String(self@)
    }

    fn try_from_value_box(value_box: ReflectValueBox) -> (r: Result<String, ReflectValueBox>) {
        match value_box {
            ReflectValueBox::String(v) => Ok(v),
            b => Err(b),
        }
    }
}

impl ProtobufValueSized for String {
    fn as_ref(value: &String) -> (r: ReflectValueRef<'_>) {
        ReflectValueRef::String(value.as_str())
    }

    fn from_value_box(value_box: ReflectValueBox) -> (r: String) {
        match value_box {
            ReflectValueBox::String(v) => v,
            _ => {
                proof {
                    assert(false);
                }
                String::new()
            },
        }
    }

    fn set_from_value_box(target: &mut String, value_box: ReflectValueBox) {
        *target = Self::from_value_box(value_box);
    }

    fn default_value_ref() -> (r: ReflectValueRef<'static>)
        ensures
            r@ == ValueView::String(Seq::empty()),
    {
        let r = ReflectValueRef::String("");
        let e = String::new();
        proof {
            reveal_strlit("");
            assert(e@ =~= ""@);
            assert(e.as_value_view() == r@);
        }
        r
    }

    fn is_non_zero(value: &String) -> (r: bool) {
        !value.as_str().is_empty()
    }

    open spec fn static_value_ref_ok(value: String) -> bool {
        value@.len() == 0
    }

    fn into_static_value_ref(value: String) -> (r: ReflectValueRef<'static>) {
        let r = ReflectValueRef::String("");
        proof {
            reveal_strlit("");
            assert(value@ =~= ""@);
        }
        r
    }
}

impl ProtobufValue for Vec<u8> {
    open spec fn as_value_view(self) -> ValueView {
        ValueView::Bytes(self@)
    }

    fn try_from_value_box(value_box: ReflectValueBox) -> (r: Result<Vec<u8>, ReflectValueBox>) {
        match value_box {
            ReflectValueBox::Bytes(v) => Ok(v),
            b => Err(b),
        }
    }
}

impl ProtobufValueSized for Vec<u8> {
    fn as_ref(value: &Vec<u8>) -> (r: ReflectValueRef<'_>) {
        ReflectValueRef::Bytes(value.as_slice())
    }

    fn from_value_box(value_box: ReflectValueBox) -> (r: Vec<u8>) {
        match value_box {
            ReflectValueBox::Bytes(v) => v,
            _ => {
                proof {
                    assert(false);
                }
                Vec::new()
            },
        }
    }

    fn set_from_value_box(target: &mut Vec<u8>, value_box: ReflectValueBox) {
        *target = Self::from_value_box(value_box);
    }

    fn default_value_ref() -> (r: ReflectValueRef<'static>)
        ensures
            r@ == ValueView::Bytes(Seq::empty()),
    {
        let empty: &'static [u8] = &[];
        let r = ReflectValueRef::Bytes(empty);
        let e: Vec<u8> = Vec::new();
        assert(e@ =~= empty@);
        assert(e.as_value_view() == r@);
        r
    }

    fn is_non_zero(value: &Vec<u8>) -> (r: bool) {
        value.len() != 0
    }

    open spec fn static_value_ref_ok(value: Vec<u8>) -> bool {
        value@.len() == 0
    }

    fn into_static_value_ref(value: Vec<u8>) -> (r: ReflectValueRef<'static>) {
        let empty: &'static [u8] = &[];
        let r = ReflectValueRef::Bytes(empty);
        assert(value@ =~= empty@);
        r
    }
}

impl ProtobufValue for EnumValueDescriptor {
    open spec fn as_value_view(self) -> ValueView {
        ValueView::Enum(self.enum_descriptor.full_name@, self.number)
    }

    fn try_from_value_box(value_box: ReflectValueBox) -> (r: Result<EnumValueDescriptor, ReflectValueBox>) {
        match value_box {
            ReflectValueBox::Enum(d, e) => Ok(EnumValueDescriptor::new(d, e)),
            b => Err(b),
        }
    }
}

impl ProtobufValue for DynamicMessage {
    open spec fn as_value_view(self) -> ValueView {
        ValueView::Message(self@)
    }

    fn try_from_value_box(value_box: ReflectValueBox) -> (r: Result<DynamicMessage, ReflectValueBox>) {
        match value_box {
            ReflectValueBox::Message(m) => Ok(*m),
            b => Err(b),
        }
    }
}

/// Downcasting a box that holds a value of `V` to `V` succeeds, and gives
/// that value.
pub proof fn law_downcast_to_own_type<V: ProtobufValue>(
    v: V,
    value_box: ReflectValueBox,
    r: Result<V, ReflectValueBox>,
)
    requires
        value_box@ == v.as_value_view(),
        downcast_result(value_box, r),
    ensures
        r matches Ok(w) && w.as_value_view() == v.as_value_view(),
{
}

} // verus!
