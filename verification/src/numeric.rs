//! Sample values in this library are IEEE-754 single-precision numbers,
//! carried everywhere as their 32-bit patterns. The arithmetic on them is
//! done by the `rustc_apfloat` software float implementation, reached only
//! through the trusted wrappers below; each operation's result is named by
//! an uninterpreted spec function of the operand bits alone.

use vstd::prelude::*;
use rustc_apfloat::Float;
use rustc_apfloat::ieee::Single;

verus! {

/// Bit pattern of the single-precision value `0.0`.
pub const ZERO_BITS: u32 = 0x0000_0000;

/// Bit pattern of the single-precision value `1.0`.
pub const ONE_BITS: u32 = 0x3F80_0000;

/// Bit pattern of the single-precision value `440.0`.
pub const A440_BITS: u32 = 0x43DC_0000;

/// The single-precision value a word denotes, or `None` where the word is
/// not a numeric literal. A function of the characters alone.
pub uninterp spec fn spec_parse_num(w: Seq<char>) -> Option<u32>;

/// Single-precision sum of two values given as bit patterns.
pub uninterp spec fn add_bits(a: u32, b: u32) -> u32;

/// Single-precision difference of two values given as bit patterns.
pub uninterp spec fn sub_bits(a: u32, b: u32) -> u32;

/// Single-precision product of two values given as bit patterns.
pub uninterp spec fn mul_bits(a: u32, b: u32) -> u32;

/// The integer a single-precision value truncates to, toward zero,
/// saturating at the ends of the `usize` range and taking NaN to zero.
pub uninterp spec fn trunc_usize_bits(a: u32) -> usize;

/// Relies on `rustc_apfloat::ieee::Single`'s `FromStr`: whether a word reads
/// as a number, and which value it denotes, depend on its characters alone.
#[verifier::external_body]
pub(crate) fn parse_num(w: &str) -> (r: Option<u32>)
    ensures
        r == spec_parse_num(w@),
{
    match w.parse::<Single>() {
        Ok(f) => Some(f.to_bits() as u32),
        Err(_) => None,
    }
}

/// Relies on `rustc_apfloat::ieee::Single::add`: IEEE-754 single-precision
/// addition, a function of the two bit patterns alone.
#[verifier::external_body]
pub(crate) fn num_add(a: u32, b: u32) -> (r: u32)
    ensures
        r == add_bits(a, b),
{
    (Single::from_bits(a as u128) + Single::from_bits(b as u128)).value.to_bits() as u32
}

/// Relies on `rustc_apfloat::ieee::Single::sub`: IEEE-754 single-precision
/// subtraction, a function of the two bit patterns alone.
#[verifier::external_body]
pub(crate) fn num_sub(a: u32, b: u32) -> (r: u32)
    ensures
        r == sub_bits(a, b),
{
    (Single::from_bits(a as u128) - Single::from_bits(b as u128)).value.to_bits() as u32
}

/// Relies on `rustc_apfloat::ieee::Single::mul`: IEEE-754 single-precision
/// multiplication, a function of the two bit patterns alone.
#[verifier::external_body]
pub(crate) fn num_mul(a: u32, b: u32) -> (r: u32)
    ensures
        r == mul_bits(a, b),
{
    (Single::from_bits(a as u128) * Single::from_bits(b as u128)).value.to_bits() as u32
}

/// Relies on `rustc_apfloat::ieee::Single::to_u128`: conversion to integer
/// toward zero, returning zero for NaN and saturating out-of-range values.
#[verifier::external_body]
pub(crate) fn num_trunc_usize(a: u32) -> (r: usize)
    ensures
        r == trunc_usize_bits(a),
{
    Single::from_bits(a as u128).to_u128(64).value as usize
}

} // verus!
