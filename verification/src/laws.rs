//! Laws of reflective equality.
use vstd::prelude::*;
use crate::eq::field_seqs_eq;
use crate::eq::lemma_field_seqs_eq;
use crate::eq::lemma_value_seqs_eq;
use crate::eq::field_values_eq;
use crate::eq::messages_eq;
use crate::eq::value_seqs_eq;
use crate::eq::values_eq;
use crate::eq::Comparison;
use crate::float_bits::f32_is_nan;
use crate::float_bits::f32_is_zero;
use crate::float_bits::f64_is_nan;
use crate::float_bits::f64_is_zero;
use crate::float_laws::law_f32_fields;
use crate::float_laws::law_f64_fields;
use crate::value::FieldView;
use crate::value::MessageView;
use crate::value::ValueView;
use crate::value_ref::view_is_non_zero;

verus! {

/// Whether a value is, or contains within a message, a NaN float.
pub open spec fn contains_nan(v: ValueView) -> bool
    decreases v,
{
    match v {
        ValueView::F32(x) => f32_is_nan(x),
        ValueView::F64(x) => f64_is_nan(x),
        ValueView::Message(m) => message_contains_nan(m),
        _ => false,
    }
}

/// Whether some field of a message contains a NaN float.
pub open spec fn message_contains_nan(m: MessageView) -> bool
    decreases m,
{
    fields_contain_nan(m.fields)
}

/// Whether some field in a sequence contains a NaN float.
pub open spec fn fields_contain_nan(s: Seq<FieldView>) -> bool
    decreases s,
{
    s.len() > 0 && (fields_contain_nan(s.drop_last()) || field_contains_nan(s.last()))
}

/// Whether a field contains a NaN float.
pub open spec fn field_contains_nan(f: FieldView) -> bool
    decreases f,
{
    match f {
        FieldView::Singular(Some(x)) => contains_nan(x),
        FieldView::Singular(None) => false,
        FieldView::Repeated(s) => values_contain_nan(s),
    }
}

/// Whether some value in a sequence contains a NaN float.
pub open spec fn values_contain_nan(s: Seq<ValueView>) -> bool
    decreases s,
{
    s.len() > 0 && (values_contain_nan(s.drop_last()) || contains_nan(s.last()))
}

/// Whether a comparison makes a NaN equal to a NaN.
pub open spec fn nan_equals_nan(c: Comparison) -> bool {
    c matches Comparison::Reflective { nan_equal } && nan_equal
}

/// Two values are of the same type: the same kind, and for enums and
/// messages also the same enum or message type.
pub open spec fn same_type(a: ValueView, b: ValueView) -> bool {
    match (a, b) {
        (ValueView::U32(_), ValueView::U32(_)) => true,
        (ValueView::U64(_), ValueView::U64(_)) => true,
        (ValueView::I32(_), ValueView::I32(_)) => true,
        (ValueView::I64(_), ValueView::I64(_)) => true,
        (ValueView::F32(_), ValueView::F32(_)) => true,
        (ValueView::F64(_), ValueView::F64(_)) => true,
        (ValueView::Bool(_), ValueView::Bool(_)) => true,
        (ValueView::String(_), ValueView::String(_)) => true,
        (ValueView::Bytes(_), ValueView::Bytes(_)) => true,
        (ValueView::Enum(x, _), ValueView::Enum(y, _)) => x == y,
        (ValueView::Message(x), ValueView::Message(y)) => x.descriptor == y.descriptor,
        _ => false,
    }
}

/// "Non-zero" means "not equal to the default": for a default value `d`
/// (one that is not non-zero), a value of the same type is non-zero exactly
/// when it is not `==` to `d`.
pub proof fn law_non_zero_iff_not_default(a: ValueView, d: ValueView)
    requires
        same_type(a, d),
        !view_is_non_zero(d),
    ensures
        view_is_non_zero(a) <==> !values_eq(a, d, Comparison::Standard),
{
    match (a, d) {
        (ValueView::F32(x), ValueView::F32(y)) => {
            assert(y == 0 || y == 0x8000_0000);
            assert(!f32_is_nan(0u32) && f32_is_zero(0u32));
        },
        (ValueView::F64(x), ValueView::F64(y)) => {
            assert(y == 0 || y == 0x8000_0000_0000_0000);
            assert(!f64_is_nan(0u64) && f64_is_zero(0u64));
        },
        (ValueView::String(x), ValueView::String(y)) => {
            assert(x.len() == 0 ==> x =~= y);
        },
        (ValueView::Bytes(x), ValueView::Bytes(y)) => {
            assert(x.len() == 0 ==> x =~= y);
        },
        _ => {},
    }
}

/// The values that are not "non-zero" are exactly the defaults: zero
/// numbers (a float zero of either sign), `false`, empty strings and bytes,
/// and enum values numbered 0. No message is a default.
pub proof fn law_zero_values(v: ValueView)
    ensures
        !view_is_non_zero(v) <==> ({
            ||| v == ValueView::U32(0)
            ||| v == ValueView::U64(0)
            ||| v == ValueView::I32(0)
            ||| v == ValueView::I64(0)
            ||| v == ValueView::Bool(false)
            ||| v matches ValueView::String(s) && s.len() == 0
            ||| v matches ValueView::Bytes(s) && s.len() == 0
            ||| v matches ValueView::Enum(_, n) && n == 0
            ||| v matches ValueView::F32(x) && x & 0x7fff_ffffu32 == 0u32
            ||| v matches ValueView::F64(x) && x & 0x7fff_ffff_ffff_ffffu64 == 0u64
        }),
{
    match v {
        ValueView::F32(x) => {
            law_f32_fields(x);
            law_f32_fields(0u32);
            assert(0u32 & 0x7fff_ffffu32 == 0u32) by (bit_vector);
            assert((0u32 >> 23u32) & 0xffu32 == 0u32) by (bit_vector);
            assert(x & 0x7fff_ffffu32 == 0u32 ==> (x >> 23u32) & 0xffu32 == 0u32) by (bit_vector);
        },
        ValueView::F64(x) => {
            law_f64_fields(x);
            law_f64_fields(0u64);
            assert(0u64 & 0x7fff_ffff_ffff_ffffu64 == 0u64) by (bit_vector);
            assert((0u64 >> 52u64) & 0x7ffu64 == 0u64) by (bit_vector);
            assert(x & 0x7fff_ffff_ffff_ffffu64 == 0u64 ==> (x >> 52u64) & 0x7ffu64 == 0u64)
                by (bit_vector);
        },
        _ => {},
    }
}

/// Apart from floats and messages, two values are equal (under either
/// comparison) exactly when they are the same value: the same kind, the
/// same payload and, for enum values, the same enum type.
pub proof fn law_eq_is_sameness(a: ValueView, b: ValueView, c: Comparison)
    requires
        !(a is F32 || a is F64 || a is Message),
    ensures
        values_eq(a, b, c) <==> a == b,
{
}

/// Two messages are equal exactly when they are of the same message type,
/// have the same number of fields, and their fields are equal one by one:
/// both unset, both set to equal values, or both repeated with equally
/// many, pairwise equal elements.
pub proof fn law_message_eq_fieldwise(x: MessageView, y: MessageView, c: Comparison)
    ensures
        values_eq(ValueView::Message(x), ValueView::Message(y), c) <==> {
            &&& x.descriptor == y.descriptor
            &&& x.fields.len() == y.fields.len()
            &&& forall|i: int|
                0 <= i < x.fields.len() ==> #[trigger] field_values_eq(x.fields[i], y.fields[i], c)
        },
        forall|f: FieldView, g: FieldView|
            #[trigger] field_values_eq(f, g, c) <==> match (f, g) {
                (FieldView::Singular(None), FieldView::Singular(None)) => true,
                (FieldView::Singular(Some(u)), FieldView::Singular(Some(v))) => values_eq(u, v, c),
                (FieldView::Repeated(u), FieldView::Repeated(v)) => u.len() == v.len() && forall|
                    j: int,
                | 0 <= j < u.len() ==> values_eq(#[trigger] u[j], v[j], c),
                _ => false,
            },
{
    lemma_field_seqs_eq(x.fields, y.fields, c);
    assert forall|f: FieldView, g: FieldView|
        #[trigger] field_values_eq(f, g, c) <==> match (f, g) {
            (FieldView::Singular(None), FieldView::Singular(None)) => true,
            (FieldView::Singular(Some(u)), FieldView::Singular(Some(v))) => values_eq(u, v, c),
            (FieldView::Repeated(u), FieldView::Repeated(v)) => u.len() == v.len() && forall|j: int|
                0 <= j < u.len() ==> values_eq(#[trigger] u[j], v[j], c),
            _ => false,
        } by {
        match (f, g) {
            (FieldView::Repeated(u), FieldView::Repeated(v)) => lemma_value_seqs_eq(u, v, c),
            _ => {},
        }
    }
}

// Symmetry.

/// Equality of values is symmetric, under either comparison.
pub proof fn law_eq_symmetric(a: ValueView, b: ValueView, c: Comparison)
    ensures
        values_eq(a, b, c) == values_eq(b, a, c),
    decreases a,
{
    match (a, b) {
        (ValueView::Message(x), ValueView::Message(y)) => lemma_messages_symmetric(x, y, c),
        _ => {},
    }
}

proof fn lemma_messages_symmetric(a: MessageView, b: MessageView, c: Comparison)
    ensures
        messages_eq(a, b, c) == messages_eq(b, a, c),
    decreases a,
{
    lemma_field_seqs_symmetric(a.fields, b.fields, c);
}

proof fn lemma_field_seqs_symmetric(a: Seq<FieldView>, b: Seq<FieldView>, c: Comparison)
    ensures
        field_seqs_eq(a, b, c) == field_seqs_eq(b, a, c),
    decreases a,
{
    if a.len() > 0 && b.len() == a.len() {
        lemma_field_seqs_symmetric(a.drop_last(), b.drop_last(), c);
        lemma_field_values_symmetric(a.last(), b.last(), c);
    }
}

proof fn lemma_field_values_symmetric(a: FieldView, b: FieldView, c: Comparison)
    ensures
        field_values_eq(a, b, c) == field_values_eq(b, a, c),
    decreases a,
{
    match (a, b) {
        (FieldView::Singular(Some(x)), FieldView::Singular(Some(y))) => law_eq_symmetric(x, y, c),
        (FieldView::Repeated(x), FieldView::Repeated(y)) => lemma_value_seqs_symmetric(x, y, c),
        _ => {},
    }
}

proof fn lemma_value_seqs_symmetric(a: Seq<ValueView>, b: Seq<ValueView>, c: Comparison)
    ensures
        value_seqs_eq(a, b, c) == value_seqs_eq(b, a, c),
    decreases a,
{
    if a.len() > 0 && b.len() == a.len() {
        lemma_value_seqs_symmetric(a.drop_last(), b.drop_last(), c);
        law_eq_symmetric(a.last(), b.last(), c);
    }
}

// Transitivity.

/// Equality of values is transitive, under either comparison.
pub proof fn law_eq_transitive(a: ValueView, b: ValueView, d: ValueView, c: Comparison)
    requires
        values_eq(a, b, c),
        values_eq(b, d, c),
    ensures
        values_eq(a, d, c),
    decreases a,
{
    match (a, b, d) {
        (ValueView::Message(x), ValueView::Message(y), ValueView::Message(z)) => {
            lemma_messages_transitive(x, y, z, c)
        },
        _ => {},
    }
}

proof fn lemma_messages_transitive(a: MessageView, b: MessageView, d: MessageView, c: Comparison)
    requires
        messages_eq(a, b, c),
        messages_eq(b, d, c),
    ensures
        messages_eq(a, d, c),
    decreases a,
{
    lemma_field_seqs_transitive(a.fields, b.fields, d.fields, c);
}

proof fn lemma_field_seqs_transitive(
    a: Seq<FieldView>,
    b: Seq<FieldView>,
    d: Seq<FieldView>,
    c: Comparison,
)
    requires
        field_seqs_eq(a, b, c),
        field_seqs_eq(b, d, c),
    ensures
        field_seqs_eq(a, d, c),
    decreases a,
{
    if a.len() > 0 {
        lemma_field_seqs_transitive(a.drop_last(), b.drop_last(), d.drop_last(), c);
        lemma_field_values_transitive(a.last(), b.last(), d.last(), c);
    }
}

proof fn lemma_field_values_transitive(a: FieldView, b: FieldView, d: FieldView, c: Comparison)
    requires
        field_values_eq(a, b, c),
        field_values_eq(b, d, c),
    ensures
        field_values_eq(a, d, c),
    decreases a,
{
    match (a, b, d) {
        (
            FieldView::Singular(Some(x)),
            FieldView::Singular(Some(y)),
            FieldView::Singular(Some(z)),
        ) => law_eq_transitive(x, y, z, c),
        (FieldView::Repeated(x), FieldView::Repeated(y), FieldView::Repeated(z)) => {
            lemma_value_seqs_transitive(x, y, z, c)
        },
        _ => {},
    }
}

proof fn lemma_value_seqs_transitive(
    a: Seq<ValueView>,
    b: Seq<ValueView>,
    d: Seq<ValueView>,
    c: Comparison,
)
    requires
        value_seqs_eq(a, b, c),
        value_seqs_eq(b, d, c),
    ensures
        value_seqs_eq(a, d, c),
    decreases a,
{
    if a.len() > 0 {
        lemma_value_seqs_transitive(a.drop_last(), b.drop_last(), d.drop_last(), c);
        law_eq_transitive(a.last(), b.last(), d.last(), c);
    }
}

// Reflexivity.

/// A value equals itself exactly when it holds no NaN, or the comparison
/// makes a NaN equal to a NaN.
pub proof fn law_eq_reflexive(a: ValueView, c: Comparison)
    ensures
        values_eq(a, a, c) <==> (nan_equals_nan(c) || !contains_nan(a)),
    decreases a,
{
    match a {
        ValueView::Message(x) => lemma_messages_reflexive(x, c),
        _ => {},
    }
}

proof fn lemma_messages_reflexive(a: MessageView, c: Comparison)
    ensures
        messages_eq(a, a, c) <==> (nan_equals_nan(c) || !message_contains_nan(a)),
    decreases a,
{
    lemma_field_seqs_reflexive(a.fields, c);
}

proof fn lemma_field_seqs_reflexive(a: Seq<FieldView>, c: Comparison)
    ensures
        field_seqs_eq(a, a, c) <==> (nan_equals_nan(c) || !fields_contain_nan(a)),
    decreases a,
{
    if a.len() > 0 {
        lemma_field_seqs_reflexive(a.drop_last(), c);
        lemma_field_values_reflexive(a.last(), c);
    }
}

proof fn lemma_field_values_reflexive(a: FieldView, c: Comparison)
    ensures
        field_values_eq(a, a, c) <==> (nan_equals_nan(c) || !field_contains_nan(a)),
    decreases a,
{
    match a {
        FieldView::Singular(Some(x)) => law_eq_reflexive(x, c),
        FieldView::Repeated(x) => lemma_value_seqs_reflexive(x, c),
        _ => {},
    }
}

proof fn lemma_value_seqs_reflexive(a: Seq<ValueView>, c: Comparison)
    ensures
        value_seqs_eq(a, a, c) <==> (nan_equals_nan(c) || !values_contain_nan(a)),
    decreases a,
{
    if a.len() > 0 {
        lemma_value_seqs_reflexive(a.drop_last(), c);
        law_eq_reflexive(a.last(), c);
    }
}

// `==` implies `reflect_eq`.

/// Values that are equal by `==` are equal by `reflect_eq` in every mode.
pub proof fn law_eq_implies_reflect_eq(a: ValueView, b: ValueView, nan_equal: bool)
    requires
        values_eq(a, b, Comparison::Standard),
    ensures
        values_eq(a, b, Comparison::Reflective { nan_equal }),
    decreases a,
{
    match (a, b) {
        (ValueView::Message(x), ValueView::Message(y)) => lemma_messages_standard_reflective(
            x,
            y,
            nan_equal,
        ),
        _ => {},
    }
}

proof fn lemma_messages_standard_reflective(a: MessageView, b: MessageView, nan_equal: bool)
    requires
        messages_eq(a, b, Comparison::Standard),
    ensures
        messages_eq(a, b, Comparison::Reflective { nan_equal }),
    decreases a,
{
    lemma_field_seqs_standard_reflective(a.fields, b.fields, nan_equal);
}

proof fn lemma_field_seqs_standard_reflective(
    a: Seq<FieldView>,
    b: Seq<FieldView>,
    nan_equal: bool,
)
    requires
        field_seqs_eq(a, b, Comparison::Standard),
    ensures
        field_seqs_eq(a, b, Comparison::Reflective { nan_equal }),
    decreases a,
{
    if a.len() > 0 {
        lemma_field_seqs_standard_reflective(a.drop_last(), b.drop_last(), nan_equal);
        lemma_field_values_standard_reflective(a.last(), b.last(), nan_equal);
    }
}

proof fn lemma_field_values_standard_reflective(a: FieldView, b: FieldView, nan_equal: bool)
    requires
        field_values_eq(a, b, Comparison::Standard),
    ensures
        field_values_eq(a, b, Comparison::Reflective { nan_equal }),
    decreases a,
{
    match (a, b) {
        (FieldView::Singular(Some(x)), FieldView::Singular(Some(y))) => {
            law_eq_implies_reflect_eq(x, y, nan_equal)
        },
        (FieldView::Repeated(x), FieldView::Repeated(y)) => {
            lemma_value_seqs_standard_reflective(x, y, nan_equal)
        },
        _ => {},
    }
}

proof fn lemma_value_seqs_standard_reflective(
    a: Seq<ValueView>,
    b: Seq<ValueView>,
    nan_equal: bool,
)
    requires
        value_seqs_eq(a, b, Comparison::Standard),
    ensures
        value_seqs_eq(a, b, Comparison::Reflective { nan_equal }),
    decreases a,
{
    if a.len() > 0 {
        lemma_value_seqs_standard_reflective(a.drop_last(), b.drop_last(), nan_equal);
        law_eq_implies_reflect_eq(a.last(), b.last(), nan_equal);
    }
}

} // verus!
