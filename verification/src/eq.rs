//! Equality of reflective values: `==` (`PartialEq`), with IEEE float
//! semantics, and `reflect_eq`, which may treat NaNs as equal.
use vstd::prelude::*;
use vstd::std_specs::cmp::PartialEqSpecImpl;
use crate::float_bits::f32_bits_eq;
use crate::float_bits::f32_bits_is_nan;
use crate::float_bits::f32_eq;
use crate::float_bits::f32_is_nan;
use crate::float_bits::f64_bits_eq;
use crate::float_bits::f64_bits_is_nan;
use crate::float_bits::f64_eq;
use crate::float_bits::f64_is_nan;
use crate::value::box_view;
use crate::value::boxes_view;
use crate::value::field_view;
use crate::value::fields_view;
use crate::value::lemma_boxes_view;
use crate::value::lemma_fields_view;
use crate::value::DynamicFieldValue;
use crate::value::DynamicMessage;
use crate::value::FieldView;
use crate::value::MessageView;
use crate::value::ReflectValueBox;
use crate::value::ValueView;
use crate::value_ref::ReflectValueRef;

verus! {

/// How floating-point values are compared.
#[derive(Clone, Copy, Debug)]
pub enum Comparison {
    /// IEEE `==`: a NaN equals nothing, `+0.0 == -0.0`.
    Standard,
    /// As `Standard` when neither value is a NaN; two NaNs are equal when
    /// `nan_equal` holds; a NaN never equals a number.
    Reflective { nan_equal: bool },
}

/// Options for `ReflectEq::reflect_eq`.
#[derive(Clone, Copy, Debug)]
pub struct ReflectEqMode {
    /// Whether a NaN equals a NaN.
    pub nan_equal: bool,
}

/// Equality of two `f32` bit patterns under a comparison.
pub open spec fn f32_equal_under(c: Comparison, a: u32, b: u32) -> bool {
    match c {
        Comparison::Standard => f32_eq(a, b),
        Comparison::Reflective { nan_equal } => if f32_is_nan(a) || f32_is_nan(b) {
            f32_is_nan(a) == f32_is_nan(b) && nan_equal
        } else {
            f32_eq(a, b)
        },
    }
}

/// Equality of two `f64` bit patterns under a comparison.
pub open spec fn f64_equal_under(c: Comparison, a: u64, b: u64) -> bool {
    match c {
        Comparison::Standard => f64_eq(a, b),
        Comparison::Reflective { nan_equal } => if f64_is_nan(a) || f64_is_nan(b) {
            f64_is_nan(a) == f64_is_nan(b) && nan_equal
        } else {
            f64_eq(a, b)
        },
    }
}

/// Equality of two values: same kind and equal payloads; enums also need
/// the same enum type, messages the same message type and equal fields.
pub open spec fn values_eq(a: ValueView, b: ValueView, c: Comparison) -> bool
    decreases a,
{
    match (a, b) {
        (ValueView::U32(x), ValueView::U32(y)) => x == y,
        (ValueView::U64(x), ValueView::U64(y)) => x == y,
        (ValueView::I32(x), ValueView::I32(y)) => x == y,
        (ValueView::I64(x), ValueView::I64(y)) => x == y,
        (ValueView::F32(x), ValueView::F32(y)) => f32_equal_under(c, x, y),
        (ValueView::F64(x), ValueView::F64(y)) => f64_equal_under(c, x, y),
        (ValueView::Bool(x), ValueView::Bool(y)) => x == y,
        (ValueView::String(x), ValueView::String(y)) => x == y,
        (ValueView::Bytes(x), ValueView::Bytes(y)) => x == y,
        (ValueView::Enum(dx, x), ValueView::Enum(dy, y)) => dx == dy && x == y,
        (ValueView::Message(x), ValueView::Message(y)) => messages_eq(x, y, c),
        _ => false,
    }
}

/// Equality of two messages: same type, and the fields equal one by one.
pub open spec fn messages_eq(a: MessageView, b: MessageView, c: Comparison) -> bool
    decreases a,
{
    a.descriptor == b.descriptor && field_seqs_eq(a.fields, b.fields, c)
}

/// Two sequences of fields of equal length, equal one by one.
pub open spec fn field_seqs_eq(a: Seq<FieldView>, b: Seq<FieldView>, c: Comparison) -> bool
    decreases a,
{
    if a.len() == 0 {
        b.len() == 0
    } else {
        b.len() == a.len() && field_seqs_eq(a.drop_last(), b.drop_last(), c) && field_values_eq(
            a.last(),
            b.last(),
            c,
        )
    }
}

/// Equality of two fields: both unset, both set to equal values, or both
/// repeated with equal elements.
pub open spec fn field_values_eq(a: FieldView, b: FieldView, c: Comparison) -> bool
    decreases a,
{
    match (a, b) {
        (FieldView::Singular(None), FieldView::Singular(None)) => true,
        (FieldView::Singular(Some(x)), FieldView::Singular(Some(y))) => values_eq(x, y, c),
        (FieldView::Repeated(x), FieldView::Repeated(y)) => value_seqs_eq(x, y, c),
        _ => false,
    }
}

/// Two sequences of values of equal length, equal one by one.
pub open spec fn value_seqs_eq(a: Seq<ValueView>, b: Seq<ValueView>, c: Comparison) -> bool
    decreases a,
{
    if a.len() == 0 {
        b.len() == 0
    } else {
        b.len() == a.len() && value_seqs_eq(a.drop_last(), b.drop_last(), c) && values_eq(
            a.last(),
            b.last(),
            c,
        )
    }
}

/// `field_seqs_eq` is equal length and element-wise equality.
pub proof fn lemma_field_seqs_eq(a: Seq<FieldView>, b: Seq<FieldView>, c: Comparison)
    ensures
        field_seqs_eq(a, b, c) <==> (a.len() == b.len() && forall|i: int|
            0 <= i < a.len() ==> #[trigger] field_values_eq(a[i], b[i], c)),
    decreases a.len(),
{
    if a.len() > 0 && b.len() == a.len() {
        lemma_field_seqs_eq(a.drop_last(), b.drop_last(), c);
        if forall|i: int| 0 <= i < a.len() ==> #[trigger] field_values_eq(a[i], b[i], c) {
            assert forall|i: int| 0 <= i < a.drop_last().len() implies #[trigger] field_values_eq(
                a.drop_last()[i],
                b.drop_last()[i],
                c,
            ) by {
                assert(field_values_eq(a[i], b[i], c));
            }
            assert(field_values_eq(a[a.len() - 1], b[a.len() - 1], c));
        }
        if field_seqs_eq(a, b, c) {
            assert forall|i: int| 0 <= i < a.len() implies #[trigger] field_values_eq(
                a[i],
                b[i],
                c,
            ) by {
                if i < a.len() - 1 {
                    assert(field_values_eq(a.drop_last()[i], b.drop_last()[i], c));
                }
            }
        }
    }
}

/// `value_seqs_eq` is equal length and element-wise equality.
pub proof fn lemma_value_seqs_eq(a: Seq<ValueView>, b: Seq<ValueView>, c: Comparison)
    ensures
        value_seqs_eq(a, b, c) <==> (a.len() == b.len() && forall|i: int|
            0 <= i < a.len() ==> #[trigger] values_eq(a[i], b[i], c)),
    decreases a.len(),
{
    if a.len() > 0 && b.len() == a.len() {
        lemma_value_seqs_eq(a.drop_last(), b.drop_last(), c);
        if forall|i: int| 0 <= i < a.len() ==> #[trigger] values_eq(a[i], b[i], c) {
            assert forall|i: int| 0 <= i < a.drop_last().len() implies #[trigger] values_eq(
                a.drop_last()[i],
                b.drop_last()[i],
                c,
            ) by {
                assert(values_eq(a[i], b[i], c));
            }
            assert(values_eq(a[a.len() - 1], b[a.len() - 1], c));
        }
        if value_seqs_eq(a, b, c) {
            assert forall|i: int| 0 <= i < a.len() implies #[trigger] values_eq(a[i], b[i], c) by {
                if i < a.len() - 1 {
                    assert(values_eq(a.drop_last()[i], b.drop_last()[i], c));
                }
            }
        }
    }
}

} // verus!

verus! {

/// Whether two byte slices are equal.
pub fn bytes_eq(a: &[u8], b: &[u8]) -> (r: bool)
    ensures
        r == (a@ == b@),
{
    if a.len() != b.len() {
        return false;
    }
    let mut i: usize = 0;
    while i < a.len()
        invariant
            a@.len() == b@.len(),
            i <= a@.len(),
            forall|j: int| 0 <= j < i ==> a@[j] == b@[j],
        decreases a@.len() - i,
    {
        if a[i] != b[i] {
            return false;
        }
        i = i + 1;
    }
    assert(a@ =~= b@);
    true
}

/// Whether two strings are equal.
pub fn str_eq(a: &str, b: &str) -> (r: bool)
    ensures
        r == (a@ == b@),
{
    let r = bytes_eq(a.as_bytes(), b.as_bytes());
    proof {
        vstd::utf8::encode_utf8_decode_utf8(a@);
        vstd::utf8::encode_utf8_decode_utf8(b@);
    }
    r
}

/// Equality of two `f32` bit patterns under a comparison.
pub fn f32_bits_equal_under(c: Comparison, a: u32, b: u32) -> (r: bool)
    ensures
        r == f32_equal_under(c, a, b),
{
    match c {
        Comparison::Standard => f32_bits_eq(a, b),
        Comparison::Reflective { nan_equal } => {
            let a_nan = f32_bits_is_nan(a);
            let b_nan = f32_bits_is_nan(b);
            if a_nan || b_nan {
                a_nan == b_nan && nan_equal
            } else {
                f32_bits_eq(a, b)
            }
        },
    }
}

/// Equality of two `f64` bit patterns under a comparison.
pub fn f64_bits_equal_under(c: Comparison, a: u64, b: u64) -> (r: bool)
    ensures
        r == f64_equal_under(c, a, b),
{
    match c {
        Comparison::Standard => f64_bits_eq(a, b),
        Comparison::Reflective { nan_equal } => {
            let a_nan = f64_bits_is_nan(a);
            let b_nan = f64_bits_is_nan(b);
            if a_nan || b_nan {
                a_nan == b_nan && nan_equal
            } else {
                f64_bits_eq(a, b)
            }
        },
    }
}

/// Equality of two owned values under a comparison.
pub fn box_eq_under(a: &ReflectValueBox, b: &ReflectValueBox, c: Comparison) -> (r: bool)
    ensures
        r == values_eq(a@, b@, c),
    decreases a,
{
    match (a, b) {
        (ReflectValueBox::U32(x), ReflectValueBox::U32(y)) => *x == *y,
        (ReflectValueBox::U64(x), ReflectValueBox::U64(y)) => *x == *y,
        (ReflectValueBox::I32(x), ReflectValueBox::I32(y)) => *x == *y,
        (ReflectValueBox::I64(x), ReflectValueBox::I64(y)) => *x == *y,
        (ReflectValueBox::F32(x), ReflectValueBox::F32(y)) => f32_bits_equal_under(c, *x, *y),
        (ReflectValueBox::F64(x), ReflectValueBox::F64(y)) => f64_bits_equal_under(c, *x, *y),
        (ReflectValueBox::Bool(x), ReflectValueBox::Bool(y)) => *x == *y,
        (ReflectValueBox::String(x), ReflectValueBox::String(y)) => *x == *y,
        (ReflectValueBox::Bytes(x), ReflectValueBox::Bytes(y)) => bytes_eq(
            x.as_slice(),
            y.as_slice(),
        ),
        (ReflectValueBox::Enum(dx, x), ReflectValueBox::Enum(dy, y)) => *dx == *dy && *x == *y,
        (ReflectValueBox::Message(x), ReflectValueBox::Message(y)) => message_eq_under(
            &**x,
            &**y,
            c,
        ),
        _ => false,
    }
}

/// Equality of two field values under a comparison.
pub fn field_eq_under(a: &DynamicFieldValue, b: &DynamicFieldValue, c: Comparison) -> (r: bool)
    ensures
        r == field_values_eq(a@, b@, c),
    decreases a,
{
    match (a, b) {
        (DynamicFieldValue::Singular(None), DynamicFieldValue::Singular(None)) => true,
        (DynamicFieldValue::Singular(Some(x)), DynamicFieldValue::Singular(Some(y))) => {
            box_eq_under(x, y, c)
        },
        (DynamicFieldValue::Repeated(x), DynamicFieldValue::Repeated(y)) => {
            let ghost xs = boxes_view(x@);
            let ghost ys = boxes_view(y@);
            proof {
                lemma_boxes_view(x@);
                lemma_boxes_view(y@);
                lemma_value_seqs_eq(xs, ys, c);
            }
            if x.len() != y.len() {
                return false;
            }
            let mut i: usize = 0;
            while i < x.len()
                invariant
                    *a == DynamicFieldValue::Repeated(*x),
                    *b == DynamicFieldValue::Repeated(*y),
                    xs == boxes_view(x@),
                    ys == boxes_view(y@),
                    x@.len() == y@.len(),
                    xs.len() == x@.len(),
                    ys.len() == y@.len(),
                    forall|j: int| 0 <= j < x@.len() ==> #[trigger] xs[j] == box_view(x@[j]),
                    forall|j: int| 0 <= j < y@.len() ==> #[trigger] ys[j] == box_view(y@[j]),
                    value_seqs_eq(xs, ys, c) <==> forall|j: int|
                        0 <= j < xs.len() ==> #[trigger] values_eq(xs[j], ys[j], c),
                    i <= x@.len(),
                    forall|j: int| 0 <= j < i ==> #[trigger] values_eq(xs[j], ys[j], c),
                decreases x@.len() - i,
            {
                proof {
                    assert(decreases_to!(x@ => x@[i as int]));
                    assert(decreases_to!(*x => x@));
                    assert(decreases_to!(*a => a->Repeated_0));
                }
                if !box_eq_under(&x[i], &y[i], c) {
                    assert(!values_eq(xs[i as int], ys[i as int], c));
                    return false;
                }
                i = i + 1;
            }
            true
        },
        _ => false,
    }
}

/// Equality of two messages under a comparison.
pub fn message_eq_under(a: &DynamicMessage, b: &DynamicMessage, c: Comparison) -> (r: bool)
    ensures
        r == messages_eq(a@, b@, c),
    decreases a,
{
    let ghost fa = fields_view(a.fields@);
    let ghost fb = fields_view(b.fields@);
    proof {
        lemma_fields_view(a.fields@);
        lemma_fields_view(b.fields@);
        lemma_field_seqs_eq(fa, fb, c);
    }
    if a.descriptor != b.descriptor {
        return false;
    }
    if a.fields.len() != b.fields.len() {
        return false;
    }
    let mut i: usize = 0;
    while i < a.fields.len()
        invariant
            fa == fields_view(a.fields@),
            fb == fields_view(b.fields@),
            a@.descriptor == b@.descriptor,
            a.fields@.len() == b.fields@.len(),
            fa.len() == a.fields@.len(),
            fb.len() == b.fields@.len(),
            forall|j: int| 0 <= j < a.fields@.len() ==> #[trigger] fa[j] == field_view(a.fields@[j]),
            forall|j: int| 0 <= j < b.fields@.len() ==> #[trigger] fb[j] == field_view(b.fields@[j]),
            field_seqs_eq(fa, fb, c) <==> forall|j: int|
                0 <= j < fa.len() ==> #[trigger] field_values_eq(fa[j], fb[j], c),
            i <= a.fields@.len(),
            forall|j: int| 0 <= j < i ==> #[trigger] field_values_eq(fa[j], fb[j], c),
        decreases a.fields@.len() - i,
    {
        proof {
            assert(decreases_to!(a => a.fields@[i as int]));
        }
        if !field_eq_under(&a.fields[i], &b.fields[i], c) {
            assert(!field_values_eq(fa[i as int], fb[i as int], c));
            return false;
        }
        i = i + 1;
    }
    true
}

/// Equality of two borrowed values under a comparison.
pub fn ref_eq_under(a: &ReflectValueRef, b: &ReflectValueRef, c: Comparison) -> (r: bool)
    ensures
        r == values_eq(a@, b@, c),
{
    match (a, b) {
        (ReflectValueRef::U32(x), ReflectValueRef::U32(y)) => *x == *y,
        (ReflectValueRef::U64(x), ReflectValueRef::U64(y)) => *x == *y,
        (ReflectValueRef::I32(x), ReflectValueRef::I32(y)) => *x == *y,
        (ReflectValueRef::I64(x), ReflectValueRef::I64(y)) => *x == *y,
        (ReflectValueRef::F32(x), ReflectValueRef::F32(y)) => f32_bits_equal_under(c, *x, *y),
        (ReflectValueRef::F64(x), ReflectValueRef::F64(y)) => f64_bits_equal_under(c, *x, *y),
        (ReflectValueRef::Bool(x), ReflectValueRef::Bool(y)) => *x == *y,
        (ReflectValueRef::String(x), ReflectValueRef::String(y)) => str_eq(*x, *y),
        (ReflectValueRef::Bytes(x), ReflectValueRef::Bytes(y)) => bytes_eq(*x, *y),
        (ReflectValueRef::Enum(dx, x), ReflectValueRef::Enum(dy, y)) => *dx == *dy && *x == *y,
        (ReflectValueRef::Message(x), ReflectValueRef::Message(y)) => message_eq_under(
            x.message(),
            y.message(),
            c,
        ),
        _ => false,
    }
}

} // verus!

verus! {

/// Equality of reflective values that may treat NaNs as equal.
pub trait ReflectEq {
    /// Whether `self` equals `that` under `mode`.
    fn reflect_eq(&self, that: &Self, mode: &ReflectEqMode) -> bool;
}

impl<'a> ReflectEq for ReflectValueRef<'a> {
    fn reflect_eq(&self, that: &Self, mode: &ReflectEqMode) -> (r: bool)
        ensures
            r == values_eq(self@, that@, Comparison::Reflective { nan_equal: mode.nan_equal }),
    {
        ref_eq_under(self, that, Comparison::Reflective { nan_equal: mode.nan_equal })
    }
}

impl<'a> PartialEq for ReflectValueRef<'a> {
    fn eq(&self, other: &ReflectValueRef<'a>) -> (r: bool) {
        ref_eq_under(self, other, Comparison::Standard)
    }
}

impl<'a> PartialEqSpecImpl for ReflectValueRef<'a> {
    open spec fn obeys_eq_spec() -> bool {
        true
    }

    open spec fn eq_spec(&self, other: &ReflectValueRef<'a>) -> bool {
        values_eq(self@, other@, Comparison::Standard)
    }
}

impl PartialEq for ReflectValueBox {
    fn eq(&self, other: &ReflectValueBox) -> (r: bool) {
        self.as_value_ref() == other.as_value_ref()
    }
}

impl PartialEqSpecImpl for ReflectValueBox {
    open spec fn obeys_eq_spec() -> bool {
        true
    }

    open spec fn eq_spec(&self, other: &ReflectValueBox) -> bool {
        values_eq(self@, other@, Comparison::Standard)
    }
}

impl<'a> PartialEq<ReflectValueRef<'a>> for ReflectValueBox {
    fn eq(&self, other: &ReflectValueRef<'a>) -> (r: bool) {
        ref_eq_under(&self.as_value_ref(), other, Comparison::Standard)
    }
}

impl<'a> PartialEqSpecImpl<ReflectValueRef<'a>> for ReflectValueBox {
    open spec fn obeys_eq_spec() -> bool {
        true
    }

    open spec fn eq_spec(&self, other: &ReflectValueRef<'a>) -> bool {
        values_eq(self@, other@, Comparison::Standard)
    }
}

impl<'a> PartialEq<ReflectValueBox> for ReflectValueRef<'a> {
    fn eq(&self, other: &ReflectValueBox) -> (r: bool) {
        ref_eq_under(self, &other.as_value_ref(), Comparison::Standard)
    }
}

impl<'a> PartialEqSpecImpl<ReflectValueBox> for ReflectValueRef<'a> {
    open spec fn obeys_eq_spec() -> bool {
        true
    }

    open spec fn eq_spec(&self, other: &ReflectValueBox) -> bool {
        values_eq(self@, other@, Comparison::Standard)
    }
}

} // verus!
