//! `ReflectValueRef`: a borrowed reflective value, and its conversions to and
//! from `ReflectValueBox`.
use vstd::prelude::*;
use crate::descriptor::EnumDescriptor;
use crate::float_bits::f32_bits_eq;
use crate::float_bits::f32_eq;
use crate::float_bits::f64_bits_eq;
use crate::float_bits::f64_eq;
use crate::message::MessageRef;
use crate::value::copy_bytes;
use crate::value::DynamicMessage;
use crate::value::ReflectValueBox;
use crate::value::ValueView;

verus! {

/// A reference to a value of any elementary protobuf type.
///
/// `f32` and `f64` values are held by their IEEE 754 bit patterns
/// (`to_bits`).
#[derive(Debug)]
pub enum ReflectValueRef<'a> {
    /// `u32`
    U32(u32),
    /// `u64`
    U64(u64),
    /// `i32`
    I32(i32),
    /// `i64`
    I64(i64),
    /// `f32`, by its bit pattern
    F32(u32),
    /// `f64`, by its bit pattern
    F64(u64),
    /// `bool`
    Bool(bool),
    /// `string`
    String(&'a str),
    /// `bytes`
    Bytes(&'a [u8]),
    /// `enum`: the enum type and the value's number
    Enum(EnumDescriptor, i32),
    /// `message`
    Message(MessageRef<'a>),
}

/// A mutable reference to a value; only messages can be changed in place.
pub enum ReflectValueMut<'a> {
    /// `message`
    Message(&'a mut DynamicMessage),
}

/// Whether a value is not the default of its type: non-zero numbers,
/// `true`, non-empty strings and bytes, non-zero enum numbers, and every
/// message.
pub open spec fn view_is_non_zero(v: ValueView) -> bool {
    match v {
        ValueView::U32(x) => x != 0,
        ValueView::U64(x) => x != 0,
        ValueView::I32(x) => x != 0,
        ValueView::I64(x) => x != 0,
        ValueView::F32(x) => !f32_eq(x, 0),
        ValueView::F64(x) => !f64_eq(x, 0),
        ValueView::Bool(x) => x,
        ValueView::String(s) => s.len() != 0,
        ValueView::Bytes(s) => s.len() != 0,
        ValueView::Enum(_, x) => x != 0,
        ValueView::Message(_) => true,
    }
}

impl<'a> View for ReflectValueRef<'a> {
    type V = ValueView;

    open spec fn view(&self) -> ValueView {
        match *self {
            ReflectValueRef::U32(v) => ValueView::U32(v),
            ReflectValueRef::U64(v) => ValueView::U64(v),
            ReflectValueRef::I32(v) => ValueView::I32(v),
            ReflectValueRef::I64(v) => ValueView::I64(v),
            ReflectValueRef::F32(v) => ValueView::F32(v),
            ReflectValueRef::F64(v) => ValueView::F64(v),
            ReflectValueRef::Bool(v) => ValueView::Bool(v),
            ReflectValueRef::String(s) => ValueView::String(s@),
            ReflectValueRef::Bytes(s) => ValueView::Bytes(s@),
            ReflectValueRef::Enum(d, v) => ValueView::Enum(d.full_name@, v),
            ReflectValueRef::Message(m) => ValueView::Message(m@),
        }
    }
}

impl<'a> Clone for ReflectValueRef<'a> {
    fn clone(&self) -> (r: ReflectValueRef<'a>)
        ensures
            r == *self,
    {
        match self {
            ReflectValueRef::U32(v) => ReflectValueRef::U32(*v),
            ReflectValueRef::U64(v) => ReflectValueRef::U64(*v),
            ReflectValueRef::I32(v) => ReflectValueRef::I32(*v),
            ReflectValueRef::I64(v) => ReflectValueRef::I64(*v),
            ReflectValueRef::F32(v) => ReflectValueRef::F32(*v),
            ReflectValueRef::F64(v) => ReflectValueRef::F64(*v),
            ReflectValueRef::Bool(v) => ReflectValueRef::Bool(*v),
            ReflectValueRef::String(s) => ReflectValueRef::String(*s),
            ReflectValueRef::Bytes(s) => ReflectValueRef::Bytes(*s),
            ReflectValueRef::Enum(d, v) => ReflectValueRef::Enum(d.clone_descriptor(), *v),
            ReflectValueRef::Message(m) => ReflectValueRef::Message(m.clone()),
        }
    }
}

impl<'a> ReflectValueRef<'a> {
    /// Value is "non-zero"?
    pub fn _is_non_zero(&self) -> (r: bool)
        ensures
            r == view_is_non_zero(self@),
    {
        match self {
            ReflectValueRef::U32(v) => *v != 0,
            ReflectValueRef::U64(v) => *v != 0,
            ReflectValueRef::I32(v) => *v != 0,
            ReflectValueRef::I64(v) => *v != 0,
            ReflectValueRef::F32(v) => !f32_bits_eq(*v, 0),
            ReflectValueRef::F64(v) => !f64_bits_eq(*v, 0),
            ReflectValueRef::Bool(v) => *v,
            ReflectValueRef::String(v) => !v.is_empty(),
            ReflectValueRef::Bytes(v) => v.len() != 0,
            ReflectValueRef::Enum(_d, v) => *v != 0,
            ReflectValueRef::Message(_) => true,
        }
    }

    /// Take `i32` value.
    pub fn to_i32(&self) -> (r: Option<i32>)
        ensures
            r == (match self@ {
                ValueView::I32(v) => Some(v),
                _ => None,
            }),
    {
        match *self {
            ReflectValueRef::I32(v) => Some(v),
            _ => None,
        }
    }

    /// Take `i64` value.
    pub fn to_i64(&self) -> (r: Option<i64>)
        ensures
            r == (match self@ {
                ValueView::I64(v) => Some(v),
                _ => None,
            }),
    {
        match *self {
            ReflectValueRef::I64(v) => Some(v),
            _ => None,
        }
    }

    /// Take `u32` value.
    pub fn to_u32(&self) -> (r: Option<u32>)
        ensures
            r == (match self@ {
                ValueView::U32(v) => Some(v),
                _ => None,
            }),
    {
        match *self {
            ReflectValueRef::U32(v) => Some(v),
            _ => None,
        }
    }

    /// Take `u64` value.
    pub fn to_u64(&self) -> (r: Option<u64>)
        ensures
            r == (match self@ {
                ValueView::U64(v) => Some(v),
                _ => None,
            }),
    {
        match *self {
            ReflectValueRef::U64(v) => Some(v),
            _ => None,
        }
    }

    /// Take `f32` value, as its IEEE 754 bit pattern.
    pub fn to_f32(&self) -> (r: Option<u32>)
        ensures
            r == (match self@ {
                ValueView::F32(v) => Some(v),
                _ => None,
            }),
    {
        match *self {
            ReflectValueRef::F32(v) => Some(v),
            _ => None,
        }
    }

    /// Take `f64` value, as its IEEE 754 bit pattern.
    pub fn to_f64(&self) -> (r: Option<u64>)
        ensures
            r == (match self@ {
                ValueView::F64(v) => Some(v),
                _ => None,
            }),
    {
        match *self {
            ReflectValueRef::F64(v) => Some(v),
            _ => None,
        }
    }

    /// Take `bool` value.
    pub fn to_bool(&self) -> (r: Option<bool>)
        ensures
            r == (match self@ {
                ValueView::Bool(v) => Some(v),
                _ => None,
            }),
    {
        match *self {
            ReflectValueRef::Bool(v) => Some(v),
            _ => None,
        }
    }

    /// Take `str` value.
    pub fn to_str(&self) -> (r: Option<&'a str>)
        ensures
            r == (match *self {
                ReflectValueRef::String(v) => Some(v),
                _ => None,
            }),
            r is Some <==> self@ is String,
            r matches Some(s) ==> self@ == ValueView::String(s@),
    {
        match *self {
            ReflectValueRef::String(v) => Some(v),
            _ => None,
        }
    }

    /// Take `[u8]` value.
    pub fn to_bytes(&self) -> (r: Option<&'a [u8]>)
        ensures
            r == (match *self {
                ReflectValueRef::Bytes(v) => Some(v),
                _ => None,
            }),
            r is Some <==> self@ is Bytes,
            r matches Some(s) ==> self@ == ValueView::Bytes(s@),
    {
        match *self {
            ReflectValueRef::Bytes(v) => Some(v),
            _ => None,
        }
    }

    /// Take message value.
    pub fn to_message(&self) -> (r: Option<MessageRef<'a>>)
        ensures
            r == (match *self {
                ReflectValueRef::Message(m) => Some(m),
                _ => None,
            }),
            r is Some <==> self@ is Message,
            r matches Some(m) ==> self@ == ValueView::Message(m@),
    {
        match self {
            ReflectValueRef::Message(m) => Some(m.clone()),
            _ => None,
        }
    }

    /// Clone to a box
    pub fn to_box(&self) -> (r: ReflectValueBox)
        ensures
            r@ == self@,
    {
        match self {
            ReflectValueRef::U32(v) => ReflectValueBox::U32(*v),
            ReflectValueRef::U64(v) => ReflectValueBox::U64(*v),
            ReflectValueRef::I32(v) => ReflectValueBox::I32(*v),
            ReflectValueRef::I64(v) => ReflectValueBox::I64(*v),
            ReflectValueRef::F32(v) => ReflectValueBox::F32(*v),
            ReflectValueRef::F64(v) => ReflectValueBox::F64(*v),
            ReflectValueRef::Bool(v) => ReflectValueBox::Bool(*v),
            ReflectValueRef::String(v) => ReflectValueBox::String((*v).to_owned()),
            ReflectValueRef::Bytes(v) => ReflectValueBox::Bytes(copy_bytes(*v)),
            ReflectValueRef::Enum(d, v) => ReflectValueBox::Enum(d.clone_descriptor(), *v),
            ReflectValueRef::Message(v) => ReflectValueBox::Message(v.clone_box()),
        }
    }
}

impl ReflectValueBox {
    /// As ref
    pub fn as_value_ref(&self) -> (r: ReflectValueRef<'_>)
        ensures
            r@ == self@,
            match (*self, r) {
                (ReflectValueBox::Message(b), ReflectValueRef::Message(m)) => m.target() == *b,
                (ReflectValueBox::Enum(d, x), ReflectValueRef::Enum(e, y)) => e == d && x == y,
                _ => true,
            },
    {
        match self {
            ReflectValueBox::U32(v) => ReflectValueRef::U32(*v),
            ReflectValueBox::U64(v) => ReflectValueRef::U64(*v),
            ReflectValueBox::I32(v) => ReflectValueRef::I32(*v),
            ReflectValueBox::I64(v) => ReflectValueRef::I64(*v),
            ReflectValueBox::F32(v) => ReflectValueRef::F32(*v),
            ReflectValueBox::F64(v) => ReflectValueRef::F64(*v),
            ReflectValueBox::Bool(v) => ReflectValueRef::Bool(*v),
            ReflectValueBox::String(v) => ReflectValueRef::String(v.as_str()),
            ReflectValueBox::Bytes(v) => ReflectValueRef::Bytes(v.as_slice()),
            ReflectValueBox::Enum(d, v) => ReflectValueRef::Enum(d.clone_descriptor(), *v),
            ReflectValueBox::Message(v) => {
                let m = MessageRef::from(&**v);
                proof {
                    MessageRef::lemma_borrowing_target(&**v);
                }
                ReflectValueRef::Message(m)
            },
        }
    }
}

} // verus!
