//! References to messages held by reflective values.
use vstd::prelude::*;
use vstd::std_specs::convert::FromSpecImpl;
use crate::value::DynamicMessage;
use crate::value::MessageView;

verus! {

/// A reference to a message.
#[derive(Debug)]
pub struct MessageRef<'a> {
    message: &'a DynamicMessage,
}

impl<'a> MessageRef<'a> {
    /// The message this reference denotes.
    pub closed spec fn target(&self) -> DynamicMessage {
        *self.message
    }

    /// The reference that borrows `message`.
    pub closed spec fn borrowing(message: &'a DynamicMessage) -> MessageRef<'a> {
        MessageRef { message }
    }

    /// `borrowing(m)` denotes `m`.
    pub proof fn lemma_borrowing_target(message: &'a DynamicMessage)
        ensures
            #[trigger] MessageRef::borrowing(message).target() == *message,
    {
    }

    /// A reference to `message`.
    pub fn new_message(message: &'a DynamicMessage) -> (r: MessageRef<'a>)
        ensures
            r == MessageRef::borrowing(message),
            r.target() == *message,
    {
        MessageRef { message }
    }

    /// The message this reference denotes.
    pub fn message(&self) -> (m: &'a DynamicMessage)
        ensures
            *m == self.target(),
            *self == MessageRef::borrowing(m),
    {
        self.message
    }

    /// A deep copy of the referenced message, boxed.
    pub fn clone_box(&self) -> (b: Box<DynamicMessage>)
        ensures
            b@ == self@,
    {
        self.message.clone_box()
    }
}

impl<'a> View for MessageRef<'a> {
    type V = MessageView;

    open spec fn view(&self) -> MessageView {
        self.target()@
    }
}

impl<'a> Clone for MessageRef<'a> {
    /// Another reference to the same message.
    fn clone(&self) -> (r: MessageRef<'a>)
        ensures
            r == *self,
    {
        MessageRef { message: self.message }
    }
}

impl<'a> core::ops::Deref for MessageRef<'a> {
    type Target = DynamicMessage;

    fn deref(&self) -> (m: &DynamicMessage)
        ensures
            *m == self.target(),
    {
        self.message
    }
}

impl<'a> From<&'a DynamicMessage> for MessageRef<'a> {
    fn from(m: &'a DynamicMessage) -> (r: MessageRef<'a>) {
        MessageRef::new_message(m)
    }
}

impl<'a> FromSpecImpl<&'a DynamicMessage> for MessageRef<'a> {
    open spec fn obeys_from_spec() -> bool {
        true
    }

    open spec fn from_spec(m: &'a DynamicMessage) -> MessageRef<'a> {
        MessageRef::borrowing(m)
    }
}

} // verus!
