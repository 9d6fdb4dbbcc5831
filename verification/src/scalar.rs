//! Scalars of the matrix, IEEE-754 binary32 values handled through their
//! 32-bit patterns.
//!
//! The matrix code never takes the values apart; it only needs the two
//! arithmetic operations, a sign flip, and a few predicates on the patterns.
//! The arithmetic is done by `rustc_apfloat`, a software implementation of
//! IEEE-754 binary arithmetic, behind the two trusted wrappers at the end of
//! this file.

use rustc_apfloat::Float;
use rustc_apfloat::ieee::Single;
use vstd::prelude::*;

verus! {

/// Bit pattern of positive zero.
pub const ZERO_BITS: u32 = 0;

/// Bit pattern of one.
pub const ONE_BITS: u32 = 0x3F80_0000;

/// The pattern encodes a zero of either sign.
pub open spec fn is_zero(b: u32) -> bool {
    b == 0 || b == 0x8000_0000u32
}

/// The pattern encodes a finite value: a zero, a subnormal or a normal
/// number, whose exponent field is not all ones. In either sign half the
/// pattern lies below the pattern of infinity.
pub open spec fn is_finite(b: u32) -> bool {
    b < 0x7F80_0000 || (0x8000_0000 <= b && b < 0xFF80_0000)
}

/// The two patterns encode the same number: they are identical, or both are
/// zeros (a positive and a negative zero compare equal as numbers).
pub open spec fn feq(a: u32, b: u32) -> bool {
    a == b || (is_zero(a) && is_zero(b))
}

/// Negation of a binary32 value flips the sign bit and leaves the rest of
/// the pattern unchanged.
pub open spec fn neg_bits(b: u32) -> u32 {
    if b < 0x8000_0000 {
        (b + 0x8000_0000) as u32
    } else {
        (b - 0x8000_0000) as u32
    }
}

/// Flips the sign bit, so that the result encodes the negated value.
pub(crate) fn negate(b: u32) -> (r: u32)
    ensures
        r == neg_bits(b),
{
    if b < 0x8000_0000 {
        b + 0x8000_0000
    } else {
        b - 0x8000_0000
    }
}

/// The binary32 sum of the two encoded values, rounded to nearest with ties
/// to even.
pub uninterp spec fn add_of(a: u32, b: u32) -> u32;

/// The binary32 product of the two encoded values, rounded to nearest with
/// ties to even.
pub uninterp spec fn mul_of(a: u32, b: u32) -> u32;

/// Relies on addition of `rustc_apfloat::ieee::Single`, IEEE-754 binary32
/// addition rounding to nearest with ties to even: the sum is a function of
/// the operand patterns alone; a zero operand leaves a nonzero finite operand
/// unchanged; and the sum of two zeros is a zero.
#[verifier::external_body]
pub(crate) fn add_bits(a: u32, b: u32) -> (r: u32)
    ensures
        r == add_of(a, b),
        is_finite(a) && !is_zero(a) && is_zero(b) ==> r == a,
        is_finite(b) && !is_zero(b) && is_zero(a) ==> r == b,
        is_zero(a) && is_zero(b) ==> is_zero(r),
{
    let x = Single::from_bits(a as u128);
    let y = Single::from_bits(b as u128);
    (x + y).value.to_bits() as u32
}

/// Relies on multiplication of `rustc_apfloat::ieee::Single`, IEEE-754
/// binary32 multiplication rounding to nearest with ties to even: the product
/// is a function of the operand patterns alone; a factor of one leaves a
/// finite operand unchanged; and a product of a zero with a finite value is a
/// zero.
#[verifier::external_body]
pub(crate) fn mul_bits(a: u32, b: u32) -> (r: u32)
    ensures
        r == mul_of(a, b),
        a == ONE_BITS && is_finite(b) ==> r == b,
        b == ONE_BITS && is_finite(a) ==> r == a,
        is_zero(a) && is_finite(b) ==> is_zero(r),
        is_zero(b) && is_finite(a) ==> is_zero(r),
{
    let x = Single::from_bits(a as u128);
    let y = Single::from_bits(b as u128);
    (x * y).value.to_bits() as u32
}

} // verus!
