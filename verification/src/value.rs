//! Reflective values: the owned `ReflectValueBox`, the borrowed
//! `ReflectValueRef`, messages held as `DynamicMessage`, and their
//! mathematical model `ValueView`.
use vstd::prelude::*;
use crate::descriptor::EnumDescriptor;
use crate::descriptor::MessageDescriptor;

verus! {

/// Owned value of any elementary protobuf type.
///
/// `f32` and `f64` values are held by their IEEE 754 bit patterns
/// (`to_bits`).
#[derive(Debug)]
pub enum ReflectValueBox {
    /// `u32`
    U32(u32),
    /// `u64`
    U64(u64),
    /// `i32`
    I32(i32),
    /// `i64`
    I64(i64),
    /// `f32`, by its bit pattern
    F32(u32),
    /// `f64`, by its bit pattern
    F64(u64),
    /// `bool`
    Bool(bool),
    /// `string`
    String(String),
    /// `bytes`
    Bytes(Vec<u8>),
    /// `enum`: the enum type and the value's number
    Enum(EnumDescriptor, i32),
    /// `message`
    Message(Box<DynamicMessage>),
}

/// The value of one field of a message.
#[derive(Debug)]
pub enum DynamicFieldValue {
    /// A singular field, unset or set.
    Singular(Option<ReflectValueBox>),
    /// A repeated field.
    Repeated(Vec<ReflectValueBox>),
}

/// A message of any type: its descriptor and the values of its fields, in
/// the order in which the descriptor declares them.
#[derive(Debug)]
pub struct DynamicMessage {
    /// The type of the message.
    pub descriptor: MessageDescriptor,
    /// One entry per field of the message type.
    pub fields: Vec<DynamicFieldValue>,
}

/// The mathematical model of a reflective value.
pub enum ValueView {
    U32(u32),
    U64(u64),
    I32(i32),
    I64(i64),
    F32(u32),
    F64(u64),
    Bool(bool),
    String(Seq<char>),
    Bytes(Seq<u8>),
    Enum(Seq<char>, i32),
    Message(MessageView),
}

/// The mathematical model of a message: the full name of its type and its
/// fields.
pub struct MessageView {
    pub descriptor: Seq<char>,
    pub fields: Seq<FieldView>,
}

/// The mathematical model of one field of a message.
pub enum FieldView {
    Singular(Option<ValueView>),
    Repeated(Seq<ValueView>),
}

/// The model of an owned value.
pub open spec fn box_view(b: ReflectValueBox) -> ValueView
    decreases b,
{
    match b {
        ReflectValueBox::U32(v) => ValueView::U32(v),
        ReflectValueBox::U64(v) => ValueView::U64(v),
        ReflectValueBox::I32(v) => ValueView::I32(v),
        ReflectValueBox::I64(v) => ValueView::I64(v),
        ReflectValueBox::F32(v) => ValueView::F32(v),
        ReflectValueBox::F64(v) => ValueView::F64(v),
        ReflectValueBox::Bool(v) => ValueView::Bool(v),
        ReflectValueBox::String(s) => ValueView::String(s@),
        ReflectValueBox::Bytes(v) => ValueView::Bytes(v@),
        ReflectValueBox::Enum(d, v) => ValueView::Enum(d.full_name@, v),
        ReflectValueBox::Message(m) => ValueView::Message(message_view(*m)),
    }
}

/// The model of a message.
pub open spec fn message_view(m: DynamicMessage) -> MessageView
    decreases m,
{
    MessageView { descriptor: m.descriptor.full_name@, fields: fields_view(m.fields@) }
}

/// The models of a sequence of fields.
pub open spec fn fields_view(s: Seq<DynamicFieldValue>) -> Seq<FieldView>
    decreases s,
{
    if s.len() == 0 {
        Seq::empty()
    } else {
        fields_view(s.drop_last()).push(field_view(s.last()))
    }
}

/// The model of one field.
pub open spec fn field_view(f: DynamicFieldValue) -> FieldView
    decreases f,
{
    match f {
        DynamicFieldValue::Singular(None) => FieldView::Singular(None),
        DynamicFieldValue::Singular(Some(b)) => FieldView::Singular(Some(box_view(b))),
        DynamicFieldValue::Repeated(v) => FieldView::Repeated(boxes_view(v@)),
    }
}

/// The models of a sequence of owned values.
pub open spec fn boxes_view(s: Seq<ReflectValueBox>) -> Seq<ValueView>
    decreases s,
{
    if s.len() == 0 {
        Seq::empty()
    } else {
        boxes_view(s.drop_last()).push(box_view(s.last()))
    }
}

} // verus!

verus! {

/// `fields_view` maps each field to its model.
pub proof fn lemma_fields_view(s: Seq<DynamicFieldValue>)
    ensures
        fields_view(s).len() == s.len(),
        forall|i: int| 0 <= i < s.len() ==> #[trigger] fields_view(s)[i] == field_view(s[i]),
    decreases s.len(),
{
    if s.len() > 0 {
        lemma_fields_view(s.drop_last());
    }
}

/// `boxes_view` maps each value to its model.
pub proof fn lemma_boxes_view(s: Seq<ReflectValueBox>)
    ensures
        boxes_view(s).len() == s.len(),
        forall|i: int| 0 <= i < s.len() ==> #[trigger] boxes_view(s)[i] == box_view(s[i]),
    decreases s.len(),
{
    if s.len() > 0 {
        lemma_boxes_view(s.drop_last());
    }
}

impl View for ReflectValueBox {
    type V = ValueView;

    open spec fn view(&self) -> ValueView {
        box_view(*self)
    }
}

impl View for DynamicMessage {
    type V = MessageView;

    open spec fn view(&self) -> MessageView {
        message_view(*self)
    }
}

impl View for DynamicFieldValue {
    type V = FieldView;

    open spec fn view(&self) -> FieldView {
        field_view(*self)
    }
}

impl ReflectValueBox {
    /// A deep copy of this value.
    pub fn clone_value(&self) -> (r: ReflectValueBox)
        ensures
            r@ == self@,
        decreases self,
    {
        match self {
            ReflectValueBox::U32(v) => ReflectValueBox::U32(*v),
            ReflectValueBox::U64(v) => ReflectValueBox::U64(*v),
            ReflectValueBox::I32(v) => ReflectValueBox::I32(*v),
            ReflectValueBox::I64(v) => ReflectValueBox::I64(*v),
            ReflectValueBox::F32(v) => ReflectValueBox::F32(*v),
            ReflectValueBox::F64(v) => ReflectValueBox::F64(*v),
            ReflectValueBox::Bool(v) => ReflectValueBox::Bool(*v),
            ReflectValueBox::String(s) => ReflectValueBox::String(s.clone()),
            ReflectValueBox::Bytes(v) => ReflectValueBox::Bytes(copy_bytes(v.as_slice())),
            ReflectValueBox::Enum(d, v) => ReflectValueBox::Enum(d.clone_descriptor(), *v),
            ReflectValueBox::Message(m) => ReflectValueBox::Message(m.clone_box()),
        }
    }
}

impl Clone for ReflectValueBox {
    fn clone(&self) -> (r: ReflectValueBox)
        ensures
            r@ == self@,
    {
        self.clone_value()
    }
}

/// An owned copy of a byte slice.
pub fn copy_bytes(s: &[u8]) -> (r: Vec<u8>)
    ensures
        r@ == s@,
{
    let mut r: Vec<u8> = Vec::new();
    let mut i: usize = 0;
    while i < s.len()
        invariant
            i <= s@.len(),
            r@ == s@.subrange(0, i as int),
        decreases s@.len() - i,
    {
        r.push(s[i]);
        i = i + 1;
    }
    r
}

impl DynamicFieldValue {
    /// A deep copy of this field value.
    pub fn clone_field(&self) -> (r: DynamicFieldValue)
        ensures
            r@ == self@,
        decreases self,
    {
        match self {
            DynamicFieldValue::Singular(None) => DynamicFieldValue::Singular(None),
            DynamicFieldValue::Singular(Some(b)) => DynamicFieldValue::Singular(
                Some(b.clone_value()),
            ),
            DynamicFieldValue::Repeated(v) => {
                let mut r: Vec<ReflectValueBox> = Vec::new();
                let mut i: usize = 0;
                proof {
                    lemma_boxes_view(v@);
                }
                while i < v.len()
                    invariant
                        i <= v@.len(),
                        *self == DynamicFieldValue::Repeated(*v),
                        boxes_view(v@).len() == v@.len(),
                        forall|j: int| 0 <= j < v@.len() ==> #[trigger] boxes_view(v@)[j] == box_view(v@[j]),
                        boxes_view(r@) =~= boxes_view(v@).subrange(0, i as int),
                    decreases v@.len() - i,
                {
                    proof {
                        assert(decreases_to!(v@ => v@[i as int]));
                        assert(decreases_to!(*v => v@));
                        assert(decreases_to!(*self => self->Repeated_0));
                    }
                    let c = v[i].clone_value();
                    proof {
                        assert(r@.push(c).drop_last() =~= r@);
                    }
                    r.push(c);
                    i = i + 1;
                }
                assert(boxes_view(v@).subrange(0, v@.len() as int) =~= boxes_view(v@));
                DynamicFieldValue::Repeated(r)
            },
        }
    }
}

impl Clone for DynamicFieldValue {
    fn clone(&self) -> (r: DynamicFieldValue)
        ensures
            r@ == self@,
    {
        self.clone_field()
    }
}

impl Clone for DynamicMessage {
    fn clone(&self) -> (r: DynamicMessage)
        ensures
            r@ == self@,
    {
        *self.clone_box()
    }
}

impl DynamicMessage {
    /// A deep copy of this message, boxed.
    pub fn clone_box(&self) -> (r: Box<DynamicMessage>)
        ensures
            r@ == self@,
        decreases self,
    {
        let mut fields: Vec<DynamicFieldValue> = Vec::new();
        let mut i: usize = 0;
        proof {
            lemma_fields_view(self.fields@);
        }
        while i < self.fields.len()
            invariant
                i <= self.fields@.len(),
                fields_view(self.fields@).len() == self.fields@.len(),
                forall|j: int| 0 <= j < self.fields@.len() ==> #[trigger] fields_view(self.fields@)[j] == field_view(self.fields@[j]),
                fields_view(fields@) =~= fields_view(self.fields@).subrange(0, i as int),
            decreases self.fields@.len() - i,
        {
            assert(decreases_to!(self => self.fields@[i as int]));
            let c = self.fields[i].clone_field();
            proof {
                assert(fields@.push(c).drop_last() =~= fields@);
            }
            fields.push(c);
            i = i + 1;
        }
        assert(fields_view(self.fields@).subrange(0, self.fields@.len() as int) =~= fields_view(
            self.fields@,
        ));
        Box::new(DynamicMessage { descriptor: self.descriptor.clone_descriptor(), fields })
    }
}

} // verus!
