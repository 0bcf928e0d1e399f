//! Arithmetic on IEEE-754 bit patterns.
//!
//! Spectral samples and filter weights travel through this crate as the 32-bit
//! patterns of IEEE-754 single-precision numbers, and configuration ranges as
//! the 64-bit patterns of double-precision numbers.  The arithmetic on those
//! patterns is done by `rustc_apfloat`, a software implementation of IEEE-754
//! whose results are a pure function of the operand bit patterns.  Each
//! operation used by the crate is named by an uninterpreted spec function and
//! wrapped once here.

use vstd::prelude::*;
use rustc_apfloat::Float;
use rustc_apfloat::FloatConvert;

verus! {

pub uninterp spec fn add_bits(a: u32, b: u32) -> u32;

pub uninterp spec fn sub_bits(a: u32, b: u32) -> u32;

pub uninterp spec fn mul_bits(a: u32, b: u32) -> u32;

pub uninterp spec fn div_bits(a: u32, b: u32) -> u32;

pub uninterp spec fn lt_bits(a: u32, b: u32) -> bool;

pub uninterp spec fn single_of_u64(n: u64) -> u32;

pub uninterp spec fn floor_u64_of(a: u32) -> u64;

pub uninterp spec fn floor_i32_of(a: u32) -> i32;

pub uninterp spec fn div_bits64(a: u64, b: u64) -> u64;

pub uninterp spec fn lt_bits64(a: u64, b: u64) -> bool;

pub uninterp spec fn single_of_double(a: u64) -> u32;

pub uninterp spec fn double_of_single(a: u32) -> u64;

/// Relies on rustc_apfloat's single-precision addition (`Float::add_r`,
/// rounding to nearest, ties to even): a pure function of the two bit patterns.
#[verifier::external_body]
pub(crate) fn single_add(a: u32, b: u32) -> (r: u32)
    ensures
        r == add_bits(a, b),
{
    let x = rustc_apfloat::ieee::Single::from_bits(a as u128);
    let y = rustc_apfloat::ieee::Single::from_bits(b as u128);
    (x + y).value.to_bits() as u32
}

/// Relies on rustc_apfloat's single-precision subtraction (`Float::sub_r`):
/// a pure function of the two bit patterns.
#[verifier::external_body]
pub(crate) fn single_sub(a: u32, b: u32) -> (r: u32)
    ensures
        r == sub_bits(a, b),
{
    let x = rustc_apfloat::ieee::Single::from_bits(a as u128);
    let y = rustc_apfloat::ieee::Single::from_bits(b as u128);
    (x - y).value.to_bits() as u32
}

/// Relies on rustc_apfloat's single-precision multiplication (`Float::mul_r`):
/// a pure function of the two bit patterns.
#[verifier::external_body]
pub(crate) fn single_mul(a: u32, b: u32) -> (r: u32)
    ensures
        r == mul_bits(a, b),
{
    let x = rustc_apfloat::ieee::Single::from_bits(a as u128);
    let y = rustc_apfloat::ieee::Single::from_bits(b as u128);
    (x * y).value.to_bits() as u32
}

/// Relies on rustc_apfloat's single-precision division (`Float::div_r`):
/// a pure function of the two bit patterns.
#[verifier::external_body]
pub(crate) fn single_div(a: u32, b: u32) -> (r: u32)
    ensures
        r == div_bits(a, b),
{
    let x = rustc_apfloat::ieee::Single::from_bits(a as u128);
    let y = rustc_apfloat::ieee::Single::from_bits(b as u128);
    (x / y).value.to_bits() as u32
}

/// Relies on rustc_apfloat's IEEE partial order on single-precision values
/// (`PartialOrd` on `IeeeFloat`): a pure function of the two bit patterns.
#[verifier::external_body]
pub(crate) fn single_lt(a: u32, b: u32) -> (r: bool)
    ensures
        r == lt_bits(a, b),
{
    let x = rustc_apfloat::ieee::Single::from_bits(a as u128);
    let y = rustc_apfloat::ieee::Single::from_bits(b as u128);
    x < y
}

/// Relies on rustc_apfloat's integer-to-single conversion (`Float::from_u128`,
/// rounding to nearest, ties to even): a pure function of the integer.
#[verifier::external_body]
pub(crate) fn single_from_u64(n: u64) -> (r: u32)
    ensures
        r == single_of_u64(n),
{
    rustc_apfloat::ieee::Single::from_u128(n as u128).value.to_bits() as u32
}

/// Relies on rustc_apfloat's single-to-integer conversion (`Float::to_u128_r`,
/// rounding toward negative infinity, so the result is the floor).  Negative
/// values and NaN convert to 0 and values beyond the range saturate, as the
/// conversion documents.  A pure function of the bit pattern.
#[verifier::external_body]
pub(crate) fn single_floor_to_u64(a: u32) -> (r: u64)
    ensures
        r == floor_u64_of(a),
{
    let x = rustc_apfloat::ieee::Single::from_bits(a as u128);
    let mut is_exact = false;
    x.to_u128_r(64, rustc_apfloat::Round::TowardNegative, &mut is_exact).value as u64
}

/// Relies on rustc_apfloat's single-to-integer conversion (`Float::to_i128_r`,
/// rounding toward negative infinity, so the result is the floor).  NaN
/// converts to 0 and values beyond the range saturate, as the conversion
/// documents.  A pure function of the bit pattern.
#[verifier::external_body]
pub(crate) fn single_floor_to_i32(a: u32) -> (r: i32)
    ensures
        r == floor_i32_of(a),
{
    let x = rustc_apfloat::ieee::Single::from_bits(a as u128);
    let mut is_exact = false;
    x.to_i128_r(32, rustc_apfloat::Round::TowardNegative, &mut is_exact).value as i32
}

/// Relies on rustc_apfloat's double-precision division (`Float::div_r`):
/// a pure function of the two bit patterns.
#[verifier::external_body]
pub(crate) fn double_div(a: u64, b: u64) -> (r: u64)
    ensures
        r == div_bits64(a, b),
{
    let x = rustc_apfloat::ieee::Double::from_bits(a as u128);
    let y = rustc_apfloat::ieee::Double::from_bits(b as u128);
    (x / y).value.to_bits() as u64
}

/// Relies on rustc_apfloat's IEEE partial order on double-precision values
/// (`PartialOrd` on `IeeeFloat`): a pure function of the two bit patterns.
#[verifier::external_body]
pub(crate) fn double_lt(a: u64, b: u64) -> (r: bool)
    ensures
        r == lt_bits64(a, b),
{
    let x = rustc_apfloat::ieee::Double::from_bits(a as u128);
    let y = rustc_apfloat::ieee::Double::from_bits(b as u128);
    x < y
}

/// Relies on rustc_apfloat's double-to-single conversion
/// (`FloatConvert::convert_r`, rounding to nearest, ties to even):
/// a pure function of the bit pattern.
#[verifier::external_body]
pub(crate) fn single_from_double(a: u64) -> (r: u32)
    ensures
        r == single_of_double(a),
{
    let x = rustc_apfloat::ieee::Double::from_bits(a as u128);
    let mut loses_info = false;
    let y: rustc_apfloat::ieee::Single =
        x.convert_r(rustc_apfloat::Round::NearestTiesToEven, &mut loses_info).value;
    y.to_bits() as u32
}

/// Relies on rustc_apfloat's single-to-double conversion
/// (`FloatConvert::convert_r`; widening, so exact): a pure function of the
/// bit pattern.
#[verifier::external_body]
pub(crate) fn double_from_single(a: u32) -> (r: u64)
    ensures
        r == double_of_single(a),
{
    let x = rustc_apfloat::ieee::Single::from_bits(a as u128);
    let mut loses_info = false;
    let y: rustc_apfloat::ieee::Double =
        x.convert_r(rustc_apfloat::Round::NearestTiesToEven, &mut loses_info).value;
    y.to_bits() as u64
}

/// Whether a single-precision bit pattern encodes a NaN: all exponent bits set
/// and a nonzero significand.
pub open spec fn spec_is_nan(x: u32) -> bool {
    ((x >> 23u32) & 0xffu32) == 0xffu32 && (x & 0x007fffffu32) != 0u32
}

pub(crate) fn single_is_nan(x: u32) -> (r: bool)
    ensures
        r == spec_is_nan(x),
{
    ((x >> 23u32) & 0xffu32) == 0xffu32 && (x & 0x007fffffu32) != 0u32
}

/// IEEE minNum: the smaller operand; if one operand is NaN, the other.
/// Of two order-equal operands it keeps the first.
pub open spec fn spec_minnum(a: u32, b: u32) -> u32 {
    if spec_is_nan(a) {
        b
    } else if spec_is_nan(b) {
        a
    } else if lt_bits(b, a) {
        b
    } else {
        a
    }
}

/// IEEE maxNum: the larger operand; if one operand is NaN, the other.
/// Of two order-equal operands it keeps the first.
pub open spec fn spec_maxnum(a: u32, b: u32) -> u32 {
    if spec_is_nan(a) {
        b
    } else if spec_is_nan(b) {
        a
    } else if lt_bits(a, b) {
        b
    } else {
        a
    }
}

pub(crate) fn single_min(a: u32, b: u32) -> (r: u32)
    ensures
        r == spec_minnum(a, b),
{
    if single_is_nan(a) {
        b
    } else if single_is_nan(b) {
        a
    } else if single_lt(b, a) {
        b
    } else {
        a
    }
}

pub(crate) fn single_max(a: u32, b: u32) -> (r: u32)
    ensures
        r == spec_maxnum(a, b),
{
    if single_is_nan(a) {
        b
    } else if single_is_nan(b) {
        a
    } else if single_lt(a, b) {
        b
    } else {
        a
    }
}

} // verus!
