//! IEEE 754 binary64 values, represented by their bit patterns.
//!
//! The language's Float values are 64-bit IEEE floating-point numbers.  The
//! library stores each one as the `u64` holding its bit pattern, and obtains
//! the arithmetic on those patterns from software floating-point routines of
//! an outside crate; each routine's result is named by an uninterpreted
//! spec function, since spelling out IEEE 754 rounding here would state
//! nothing checkable.

use vstd::prelude::*;
use rustc_apfloat::Float;
use rustc_apfloat::ieee::Double;

verus! {

/// The bits of the binary64 value denoted by a decimal text (digits and
/// dots), or None when the text is not a well-formed decimal number.
pub uninterp spec fn float_of_text(text: Seq<char>) -> Option<u64>;

/// The bits of the round-to-nearest-even binary64 sum of two values given by
/// their bits.
pub uninterp spec fn add_bits(a: u64, b: u64) -> u64;

/// The bits of the binary64 difference, rounded to nearest even.
pub uninterp spec fn sub_bits(a: u64, b: u64) -> u64;

/// The bits of the binary64 product, rounded to nearest even.
pub uninterp spec fn mul_bits(a: u64, b: u64) -> u64;

/// The bits of the binary64 quotient, rounded to nearest even.
pub uninterp spec fn div_bits(a: u64, b: u64) -> u64;

/// Whether the binary64 value of `a` is strictly less than that of `b`.
pub uninterp spec fn lt_bits(a: u64, b: u64) -> bool;

/// Whether the binary64 value of `a` is less than or equal to that of `b`.
pub uninterp spec fn le_bits(a: u64, b: u64) -> bool;

/// Whether the binary64 values of `a` and `b` compare equal.
pub uninterp spec fn eq_bits(a: u64, b: u64) -> bool;

/// Relies on rustc_apfloat::ieee::Double's FromStr impl: it parses a decimal
/// significand (one optional dot) to a correctly rounded binary64 value, a
/// function of the text alone, and rejects malformed text such as a second
/// dot.
#[verifier::external_body]
pub(crate) fn float_parse(text: &Vec<char>) -> (r: Option<u64>)
    ensures
        r == float_of_text(text@),
{
    let s: String = text.iter().collect();
    match s.parse::<Double>() {
        Ok(d) => Some(d.to_bits() as u64),
        Err(_) => None,
    }
}

/// Relies on rustc_apfloat::ieee::Double::add_r with round to nearest even,
/// reached through its Add impl: the result depends on the operand bits
/// alone.
#[verifier::external_body]
pub(crate) fn float_add(a: u64, b: u64) -> (r: u64)
    ensures
        r == add_bits(a, b),
{
    (Double::from_bits(a as u128) + Double::from_bits(b as u128)).value.to_bits() as u64
}

/// Relies on rustc_apfloat::ieee::Double::sub_r with round to nearest even,
/// reached through its Sub impl.
#[verifier::external_body]
pub(crate) fn float_sub(a: u64, b: u64) -> (r: u64)
    ensures
        r == sub_bits(a, b),
{
    (Double::from_bits(a as u128) - Double::from_bits(b as u128)).value.to_bits() as u64
}

/// Relies on rustc_apfloat::ieee::Double::mul_r with round to nearest even,
/// reached through its Mul impl.
#[verifier::external_body]
pub(crate) fn float_mul(a: u64, b: u64) -> (r: u64)
    ensures
        r == mul_bits(a, b),
{
    (Double::from_bits(a as u128) * Double::from_bits(b as u128)).value.to_bits() as u64
}

/// Relies on rustc_apfloat::ieee::Double::div_r with round to nearest even,
/// reached through its Div impl; division by zero yields an infinity or NaN,
/// never a fault.
#[verifier::external_body]
pub(crate) fn float_div(a: u64, b: u64) -> (r: u64)
    ensures
        r == div_bits(a, b),
{
    (Double::from_bits(a as u128) / Double::from_bits(b as u128)).value.to_bits() as u64
}

/// Relies on rustc_apfloat::ieee::Double's Neg impl, which flips the sign
/// and changes nothing else; in the binary64 layout that is the top bit.
#[verifier::external_body]
pub(crate) fn float_neg(a: u64) -> (r: u64)
    ensures
        r == a ^ 0x8000_0000_0000_0000u64,
{
    (-Double::from_bits(a as u128)).to_bits() as u64
}

/// Relies on rustc_apfloat::ieee::Double's PartialOrd impl, the IEEE 754
/// partial order (NaN compares with nothing).
#[verifier::external_body]
pub(crate) fn float_lt(a: u64, b: u64) -> (r: bool)
    ensures
        r == lt_bits(a, b),
{
    Double::from_bits(a as u128) < Double::from_bits(b as u128)
}

/// Relies on rustc_apfloat::ieee::Double's PartialOrd impl, the IEEE 754
/// partial order (NaN compares with nothing).
#[verifier::external_body]
pub(crate) fn float_le(a: u64, b: u64) -> (r: bool)
    ensures
        r == le_bits(a, b),
{
    Double::from_bits(a as u128) <= Double::from_bits(b as u128)
}

/// Relies on rustc_apfloat::ieee::Double's PartialEq impl, IEEE 754 equality
/// (zeros of either sign are equal, NaN equals nothing).
#[verifier::external_body]
pub(crate) fn float_eq(a: u64, b: u64) -> (r: bool)
    ensures
        r == eq_bits(a, b),
{
    Double::from_bits(a as u128) == Double::from_bits(b as u128)
}

} // verus!
