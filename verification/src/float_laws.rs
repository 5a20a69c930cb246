//! Laws of float comparison, stated on the IEEE 754 bit fields: the sign
//! bit, the exponent field and the mantissa field.
use vstd::prelude::*;
use crate::eq::values_eq;
use crate::eq::Comparison;
use crate::float_bits::f32_is_nan;
use crate::float_bits::f32_is_zero;
use crate::float_bits::f64_is_nan;
use crate::float_bits::f64_is_zero;
use crate::laws::nan_equals_nan;
use crate::value::ValueView;

verus! {

/// NaN is "exponent field all ones, mantissa field non-zero"; zero is
/// "every bit but the sign bit clear" (f32).
pub proof fn law_f32_fields(x: u32)
    ensures
        f32_is_nan(x) <==> ((x >> 23u32) & 0xffu32 == 0xffu32 && x & 0x7f_ffffu32 != 0u32),
        f32_is_zero(x) <==> x & 0x7fff_ffffu32 == 0u32,
{
    assert((x / 0x80_0000u32) % 0x100u32 == (x >> 23u32) & 0xffu32) by (bit_vector);
    assert(x % 0x80_0000u32 == x & 0x7f_ffffu32) by (bit_vector);
    assert(x % 0x8000_0000u32 == x & 0x7fff_ffffu32) by (bit_vector);
}

/// NaN is "exponent field all ones, mantissa field non-zero"; zero is
/// "every bit but the sign bit clear" (f64).
pub proof fn law_f64_fields(x: u64)
    ensures
        f64_is_nan(x) <==> ((x >> 52u64) & 0x7ffu64 == 0x7ffu64 && x & 0xf_ffff_ffff_ffffu64
            != 0u64),
        f64_is_zero(x) <==> x & 0x7fff_ffff_ffff_ffffu64 == 0u64,
{
    assert((x / 0x10_0000_0000_0000u64) % 0x800u64 == (x >> 52u64) & 0x7ffu64) by (bit_vector);
    assert(x % 0x10_0000_0000_0000u64 == x & 0xf_ffff_ffff_ffffu64) by (bit_vector);
    assert(x % 0x8000_0000_0000_0000u64 == x & 0x7fff_ffff_ffff_ffffu64) by (bit_vector);
}

/// Two `f32` values compare equal, under either comparison, exactly when
/// neither is a NaN and their bit patterns agree, or both are zeros of
/// either sign; or when both are NaNs and the comparison makes NaN equal
/// NaN. In particular a non-zero value never equals its negation.
pub proof fn law_f32_equality(x: u32, y: u32, c: Comparison)
    ensures
        values_eq(ValueView::F32(x), ValueView::F32(y), c) <==> ({
            let x_nan = (x >> 23u32) & 0xffu32 == 0xffu32 && x & 0x7f_ffffu32 != 0u32;
            let y_nan = (y >> 23u32) & 0xffu32 == 0xffu32 && y & 0x7f_ffffu32 != 0u32;
            ||| !x_nan && !y_nan && (x == y || (x & 0x7fff_ffffu32 == 0u32 && y & 0x7fff_ffffu32
                == 0u32))
            ||| nan_equals_nan(c) && x_nan && y_nan
        }),
{
    law_f32_fields(x);
    law_f32_fields(y);
}

/// Two `f64` values compare equal, under either comparison, exactly when
/// neither is a NaN and their bit patterns agree, or both are zeros of
/// either sign; or when both are NaNs and the comparison makes NaN equal
/// NaN. In particular a non-zero value never equals its negation.
pub proof fn law_f64_equality(x: u64, y: u64, c: Comparison)
    ensures
        values_eq(ValueView::F64(x), ValueView::F64(y), c) <==> ({
            let x_nan = (x >> 52u64) & 0x7ffu64 == 0x7ffu64 && x & 0xf_ffff_ffff_ffffu64 != 0u64;
            let y_nan = (y >> 52u64) & 0x7ffu64 == 0x7ffu64 && y & 0xf_ffff_ffff_ffffu64 != 0u64;
            ||| !x_nan && !y_nan && (x == y || (x & 0x7fff_ffff_ffff_ffffu64 == 0u64 && y
                & 0x7fff_ffff_ffff_ffffu64 == 0u64))
            ||| nan_equals_nan(c) && x_nan && y_nan
        }),
{
    law_f64_fields(x);
    law_f64_fields(y);
}

/// Flipping the sign bit of a float that is neither zero nor NaN gives a
/// value that compares unequal to it, under either comparison.
pub proof fn law_negation_differs(x32: u32, x64: u64, c: Comparison)
    ensures
        x32 & 0x7fff_ffffu32 != 0u32 && !((x32 >> 23u32) & 0xffu32 == 0xffu32 && x32
            & 0x7f_ffffu32 != 0u32) ==> !values_eq(
            ValueView::F32(x32),
            ValueView::F32(x32 ^ 0x8000_0000u32),
            c,
        ),
        x64 & 0x7fff_ffff_ffff_ffffu64 != 0u64 && !((x64 >> 52u64) & 0x7ffu64 == 0x7ffu64 && x64
            & 0xf_ffff_ffff_ffffu64 != 0u64) ==> !values_eq(
            ValueView::F64(x64),
            ValueView::F64(x64 ^ 0x8000_0000_0000_0000u64),
            c,
        ),
{
    law_f32_equality(x32, x32 ^ 0x8000_0000u32, c);
    law_f64_equality(x64, x64 ^ 0x8000_0000_0000_0000u64, c);
    assert(x32 != x32 ^ 0x8000_0000u32) by (bit_vector);
    assert(x64 != x64 ^ 0x8000_0000_0000_0000u64) by (bit_vector);
    assert(x32 & 0x7fff_ffffu32 != 0u32 ==> (x32 ^ 0x8000_0000u32) & 0x7fff_ffffu32 != 0u32)
        by (bit_vector);
    assert(x64 & 0x7fff_ffff_ffff_ffffu64 != 0u64 ==> (x64 ^ 0x8000_0000_0000_0000u64)
        & 0x7fff_ffff_ffff_ffffu64 != 0u64) by (bit_vector);
}

} // verus!
