//! IEEE 754 comparisons on the bit patterns of `f32` and `f64` values.
//!
//! Floating-point values are carried through the library by their bit
//! patterns (`f32::to_bits`, `f64::to_bits`); the predicates here give the
//! IEEE meaning of `==`, `!= 0.0` and `is_nan` on those patterns.
use vstd::prelude::*;

verus! {

/// `2^23`: the weight of the lowest exponent bit of an `f32`.
pub open spec fn f32_mantissa_span() -> int {
    0x80_0000
}

/// `2^52`: the weight of the lowest exponent bit of an `f64`.
pub open spec fn f64_mantissa_span() -> int {
    0x10_0000_0000_0000
}

/// An `f32` bit pattern denotes a NaN: all exponent bits set and a
/// non-zero mantissa.
pub open spec fn f32_is_nan(bits: u32) -> bool {
    &&& (bits as int / f32_mantissa_span()) % 0x100 == 0xff
    &&& bits as int % f32_mantissa_span() != 0
}

/// An `f32` bit pattern denotes `+0.0` or `-0.0`.
pub open spec fn f32_is_zero(bits: u32) -> bool {
    bits as int % 0x8000_0000 == 0
}

/// IEEE equality of two `f32` values given by their bit patterns: no NaN
/// equals anything, `+0.0 == -0.0`, and otherwise the patterns must agree.
pub open spec fn f32_eq(a: u32, b: u32) -> bool {
    &&& !f32_is_nan(a)
    &&& !f32_is_nan(b)
    &&& (a == b || (f32_is_zero(a) && f32_is_zero(b)))
}

/// An `f64` bit pattern denotes a NaN.
pub open spec fn f64_is_nan(bits: u64) -> bool {
    &&& (bits as int / f64_mantissa_span()) % 0x800 == 0x7ff
    &&& bits as int % f64_mantissa_span() != 0
}

/// An `f64` bit pattern denotes `+0.0` or `-0.0`.
pub open spec fn f64_is_zero(bits: u64) -> bool {
    bits as int % 0x8000_0000_0000_0000 == 0
}

/// IEEE equality of two `f64` values given by their bit patterns.
pub open spec fn f64_eq(a: u64, b: u64) -> bool {
    &&& !f64_is_nan(a)
    &&& !f64_is_nan(b)
    &&& (a == b || (f64_is_zero(a) && f64_is_zero(b)))
}

/// Whether the `f32` with these bits is a NaN.
pub fn f32_bits_is_nan(bits: u32) -> (r: bool)
    ensures
        r == f32_is_nan(bits),
{
    (bits / 0x80_0000) % 0x100 == 0xff && bits % 0x80_0000 != 0
}

/// Whether the `f32` with these bits is `+0.0` or `-0.0`.
pub fn f32_bits_is_zero(bits: u32) -> (r: bool)
    ensures
        r == f32_is_zero(bits),
{
    bits % 0x8000_0000 == 0
}

/// `a == b` on the `f32` values with these bits.
pub fn f32_bits_eq(a: u32, b: u32) -> (r: bool)
    ensures
        r == f32_eq(a, b),
{
    !f32_bits_is_nan(a) && !f32_bits_is_nan(b) && (a == b || (f32_bits_is_zero(a)
        && f32_bits_is_zero(b)))
}

/// Whether the `f64` with these bits is a NaN.
pub fn f64_bits_is_nan(bits: u64) -> (r: bool)
    ensures
        r == f64_is_nan(bits),
{
    (bits / 0x10_0000_0000_0000) % 0x800 == 0x7ff && bits % 0x10_0000_0000_0000 != 0
}

/// Whether the `f64` with these bits is `+0.0` or `-0.0`.
pub fn f64_bits_is_zero(bits: u64) -> (r: bool)
    ensures
        r == f64_is_zero(bits),
{
    bits % 0x8000_0000_0000_0000 == 0
}

/// `a == b` on the `f64` values with these bits.
pub fn f64_bits_eq(a: u64, b: u64) -> (r: bool)
    ensures
        r == f64_eq(a, b),
{
    !f64_bits_is_nan(a) && !f64_bits_is_nan(b) && (a == b || (f64_bits_is_zero(a)
        && f64_bits_is_zero(b)))
}

} // verus!
