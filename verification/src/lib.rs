//! Reflective protobuf values: a borrowed view (`ReflectValueRef`) and an
//! owned value (`ReflectValueBox`) of any singular protobuf type, with
//! conversions, typed extraction, equality and hashing.
use vstd::prelude::*;

pub mod convert;
pub mod descriptor;
pub mod eq;
pub mod float_bits;
pub mod float_laws;
pub mod hash;
pub mod laws;
pub mod message;
pub mod protobuf_value;
pub mod value;
pub mod value_ref;

pub use crate::descriptor::EnumDescriptor;
pub use crate::descriptor::EnumValueDescriptor;
pub use crate::descriptor::MessageDescriptor;
pub use crate::eq::ReflectEq;
pub use crate::eq::ReflectEqMode;
pub use crate::hash::ReflectHashKey;
pub use crate::message::MessageRef;
pub use crate::protobuf_value::ProtobufValue;
pub use crate::protobuf_value::ProtobufValueSized;
pub use crate::value::DynamicFieldValue;
pub use crate::value::DynamicMessage;
pub use crate::value::ReflectValueBox;
pub use crate::value_ref::ReflectValueMut;
pub use crate::value_ref::ReflectValueRef;

verus! {
} // verus!
