//! Descriptors of protobuf enum and message types, identified by their
//! fully qualified names.
use vstd::prelude::*;
use vstd::std_specs::cmp::PartialEqSpecImpl;

verus! {

/// Describes a protobuf enum type.
#[derive(Debug)]
pub struct EnumDescriptor {
    /// Fully qualified name of the enum type, such as `pkg.Color`.
    pub full_name: String,
}

/// One value of a protobuf enum type.
#[derive(Debug)]
pub struct EnumValueDescriptor {
    /// The enum type this value belongs to.
    pub enum_descriptor: EnumDescriptor,
    /// The number of the value.
    pub number: i32,
}

/// Describes a protobuf message type.
#[derive(Debug)]
pub struct MessageDescriptor {
    /// Fully qualified name of the message type, such as `pkg.Person`.
    pub full_name: String,
}

impl EnumDescriptor {
    /// A descriptor for the enum type with this fully qualified name.
    pub fn new(full_name: String) -> (d: EnumDescriptor)
        ensures
            d.full_name == full_name,
    {
        EnumDescriptor { full_name }
    }

    /// A copy of this descriptor.
    pub fn clone_descriptor(&self) -> (d: EnumDescriptor)
        ensures
            d == *self,
    {
        EnumDescriptor { full_name: self.full_name.clone() }
    }
}

impl Clone for EnumDescriptor {
    fn clone(&self) -> (d: EnumDescriptor)
        ensures
            d == *self,
    {
        self.clone_descriptor()
    }
}

impl PartialEq for EnumDescriptor {
    fn eq(&self, other: &EnumDescriptor) -> (r: bool) {
        self.full_name == other.full_name
    }
}

impl PartialEqSpecImpl for EnumDescriptor {
    open spec fn obeys_eq_spec() -> bool {
        true
    }

    open spec fn eq_spec(&self, other: &EnumDescriptor) -> bool {
        self.full_name@ == other.full_name@
    }
}

impl EnumValueDescriptor {
    /// The value numbered `number` of the enum type `enum_descriptor`.
    pub fn new(enum_descriptor: EnumDescriptor, number: i32) -> (v: EnumValueDescriptor)
        ensures
            v.enum_descriptor == enum_descriptor,
            v.number == number,
    {
        EnumValueDescriptor { enum_descriptor, number }
    }

    /// The enum type this value belongs to.
    pub fn enum_descriptor(&self) -> (d: &EnumDescriptor)
        ensures
            *d == self.enum_descriptor,
    {
        &self.enum_descriptor
    }

    /// The number of this value.
    pub fn value(&self) -> (n: i32)
        ensures
            n == self.number,
    {
        self.number
    }
}

impl Clone for EnumValueDescriptor {
    fn clone(&self) -> (v: EnumValueDescriptor)
        ensures
            v == *self,
    {
        EnumValueDescriptor {
            enum_descriptor: self.enum_descriptor.clone_descriptor(),
            number: self.number,
        }
    }
}

impl MessageDescriptor {
    /// A descriptor for the message type with this fully qualified name.
    pub fn new(full_name: String) -> (d: MessageDescriptor)
        ensures
            d.full_name == full_name,
    {
        MessageDescriptor { full_name }
    }

    /// A copy of this descriptor.
    pub fn clone_descriptor(&self) -> (d: MessageDescriptor)
        ensures
            d == *self,
    {
        MessageDescriptor { full_name: self.full_name.clone() }
    }
}

impl Clone for MessageDescriptor {
    fn clone(&self) -> (d: MessageDescriptor)
        ensures
            d == *self,
    {
        self.clone_descriptor()
    }
}

impl PartialEq for MessageDescriptor {
    fn eq(&self, other: &MessageDescriptor) -> (r: bool) {
        self.full_name == other.full_name
    }
}

impl PartialEqSpecImpl for MessageDescriptor {
    open spec fn obeys_eq_spec() -> bool {
        true
    }

    open spec fn eq_spec(&self, other: &MessageDescriptor) -> bool {
        self.full_name@ == other.full_name@
    }
}

} // verus!
