//! Mel-scale utilities: Hz/Mel conversion and linearly spaced sample points.
//!
//! All values are single-precision bit patterns (see `ieee_bits`).  The
//! logarithm and power routines the conversions need are implemented here on
//! those patterns: the argument is split into exponent and mantissa by bit
//! manipulation and the mantissa part is approximated by a short polynomial,
//! so every step is either integer arithmetic or one wrapped IEEE operation.

use vstd::prelude::*;
use crate::ieee_bits::{
    add_bits, sub_bits, mul_bits, div_bits, lt_bits, single_of_u64, floor_i32_of, single_add,
    single_sub, single_mul, single_div, single_lt, single_from_u64, single_floor_to_i32,
};

verus! {

/// Bit pattern of the single-precision number one.
pub const ONE_BITS: u32 = 0x3f80_0000;

/// Bit pattern of the single-precision number ten.
pub const TEN_BITS: u32 = 0x4120_0000;

/// Bit pattern of the single-precision number one half.
pub const HALF_BITS: u32 = 0x3f00_0000;

/// Bit pattern of positive infinity.
pub const PLUS_INF_BITS: u32 = 0x7f80_0000;

/// Bit pattern of negative infinity.
pub const MINUS_INF_BITS: u32 = 0xff80_0000;

/// Bit pattern of a quiet NaN.
pub const QNAN_BITS: u32 = 0x7fc0_0000;

/// Bit pattern of the Mel scale factor 2595.
pub const MEL_SCALE_BITS: u32 = 0x4522_3000;

/// Bit pattern of the Mel corner frequency 700.
pub const HZ_BREAK_BITS: u32 = 0x442f_0000;

/// Bit pattern of two to the twenty-third power.
pub const TWO_P23_BITS: u32 = 0x4b00_0000;

/// Bit pattern of the square root of two.
pub const SQRT2_BITS: u32 = 0x3fb5_04f3;

/// Bit pattern of the reciprocal of the natural logarithm of ten.
pub const INV_LN10_BITS: u32 = 0x3ede_5bd9;

/// Bit pattern of the decimal logarithm of two.
pub const LOG10_2_BITS: u32 = 0x3e9a_209b;

/// Bit pattern of the binary logarithm of ten.
pub const LOG2_10_BITS: u32 = 0x4054_9a78;

/// Bit pattern of the natural logarithm of two.
pub const LN2_BITS: u32 = 0x3f31_7218;

/// Bit pattern of one third.
pub const C3_BITS: u32 = 0x3eaa_aaab;

/// Bit pattern of one fifth.
pub const C5_BITS: u32 = 0x3e4c_cccd;

/// Bit pattern of one seventh.
pub const C7_BITS: u32 = 0x3e12_4925;

/// Bit pattern of one quarter.
pub const I4_BITS: u32 = 0x3e80_0000;

/// Bit pattern of one sixth.
pub const I6_BITS: u32 = 0x3e2a_aaab;

/// Bit pattern of one eighth.
pub const I8_BITS: u32 = 0x3e00_0000;

/// Bit pattern of the single-precision number 128.
pub const B128_BITS: u32 = 0x4300_0000;

/// Bit pattern of the single-precision number minus 150.
pub const NEG150_BITS: u32 = 0xc316_0000;

/// The single-precision value of a signed integer: the conversion of its
/// magnitude with the sign bit flipped in when the integer is negative.
pub open spec fn spec_int_to_single(e: int) -> u32 {
    if e >= 0 {
        single_of_u64(e as u64)
    } else {
        single_of_u64((-e) as u64) ^ 0x8000_0000u32
    }
}

pub(crate) fn int_to_single(e: i32) -> (r: u32)
    ensures
        r == spec_int_to_single(e as int),
{
    if e >= 0 {
        single_from_u64(e as u64)
    } else {
        let mag: u64 = (-(e as i64)) as u64;
        single_from_u64(mag) ^ 0x8000_0000u32
    }
}

/// The decimal logarithm of a single-precision pattern.
///
/// The argument is split into exponent and mantissa; the mantissa, reduced to
/// the interval around one bounded by the square root of two, is approximated
/// through the series for the hyperbolic arctangent of `(m - 1) / (m + 1)`.
/// Zero maps to negative infinity, negative arguments map to NaN, and
/// infinity and NaN map to themselves.
pub open spec fn spec_log10_single(x: u32) -> u32 {
    let exp_bits = (x >> 23u32) & 0xffu32;
    if x == 0u32 || x == 0x8000_0000u32 {
        MINUS_INF_BITS
    } else if x >= 0x8000_0000u32 {
        QNAN_BITS
    } else if exp_bits == 0xffu32 {
        x
    } else {
        let xn = if exp_bits == 0u32 {
            mul_bits(x, TWO_P23_BITS)
        } else {
            x
        };
        let e_adj: int = if exp_bits == 0u32 {
            -23
        } else {
            0
        };
        let exp_n = (xn >> 23u32) & 0xffu32;
        let e0: int = exp_n - 127 + e_adj;
        let m0 = (xn & 0x007f_ffffu32) | 0x3f80_0000u32;
        let m = if lt_bits(SQRT2_BITS, m0) {
            mul_bits(m0, HALF_BITS)
        } else {
            m0
        };
        let e: int = if lt_bits(SQRT2_BITS, m0) {
            e0 + 1
        } else {
            e0
        };
        let t = div_bits(sub_bits(m, ONE_BITS), add_bits(m, ONE_BITS));
        let t2 = mul_bits(t, t);
        let p = add_bits(
            ONE_BITS,
            mul_bits(t2, add_bits(C3_BITS, mul_bits(t2, add_bits(C5_BITS, mul_bits(t2, C7_BITS))))),
        );
        let lnm = mul_bits(add_bits(t, t), p);
        let l10m = mul_bits(lnm, INV_LN10_BITS);
        add_bits(l10m, mul_bits(spec_int_to_single(e), LOG10_2_BITS))
    }
}

pub(crate) fn log10_single(x: u32) -> (r: u32)
    ensures
        r == spec_log10_single(x),
{
    let exp_bits: u32 = (x >> 23u32) & 0xffu32;
    if x == 0u32 || x == 0x8000_0000u32 {
        return MINUS_INF_BITS;
    }
    if x >= 0x8000_0000u32 {
        return QNAN_BITS;
    }
    if exp_bits == 0xffu32 {
        return x;
    }
    let xn: u32 = if exp_bits == 0u32 {
        single_mul(x, TWO_P23_BITS)
    } else {
        x
    };
    let e_adj: i32 = if exp_bits == 0u32 {
        -23
    } else {
        0
    };
    let exp_n: u32 = (xn >> 23u32) & 0xffu32;
    assert(((xn >> 23u32) & 0xffu32) <= 255) by (bit_vector);
    let e0: i32 = (exp_n as i32) - 127 + e_adj;
    let m0: u32 = (xn & 0x007f_ffffu32) | 0x3f80_0000u32;
    let reduce: bool = single_lt(SQRT2_BITS, m0);
    let m: u32 = if reduce {
        single_mul(m0, HALF_BITS)
    } else {
        m0
    };
    let e: i32 = if reduce {
        e0 + 1
    } else {
        e0
    };
    let t: u32 = single_div(single_sub(m, ONE_BITS), single_add(m, ONE_BITS));
    let t2: u32 = single_mul(t, t);
    let p: u32 = single_add(
        ONE_BITS,
        single_mul(
            t2,
            single_add(C3_BITS, single_mul(t2, single_add(C5_BITS, single_mul(t2, C7_BITS)))),
        ),
    );
    let lnm: u32 = single_mul(single_add(t, t), p);
    let l10m: u32 = single_mul(lnm, INV_LN10_BITS);
    single_add(l10m, single_mul(int_to_single(e), LOG10_2_BITS))
}

/// Ten raised to a single-precision pattern.
///
/// The argument is scaled by the binary logarithm of ten and split into an
/// integral part, which becomes the exponent of the result, and a fractional
/// part, approximated through the exponential series.  Results below the
/// normal range collapse to zero; results at or above the overflow threshold
/// are positive infinity; NaN maps to itself.
pub open spec fn spec_exp10_single(x: u32) -> u32 {
    let exp_bits = (x >> 23u32) & 0xffu32;
    let frac = x & 0x007f_ffffu32;
    if exp_bits == 0xffu32 && frac != 0u32 {
        x
    } else if x == PLUS_INF_BITS {
        PLUS_INF_BITS
    } else if x == MINUS_INF_BITS {
        0u32
    } else {
        let z = mul_bits(x, LOG2_10_BITS);
        if !lt_bits(z, B128_BITS) {
            PLUS_INF_BITS
        } else if lt_bits(z, NEG150_BITS) {
            0u32
        } else {
            let n0: int = floor_i32_of(z) as int;
            let n: int = if n0 > 127 {
                127
            } else if n0 < -150 {
                -150
            } else {
                n0
            };
            let f = sub_bits(z, spec_int_to_single(n));
            let w = mul_bits(f, LN2_BITS);
            let p8 = add_bits(ONE_BITS, mul_bits(w, I8_BITS));
            let p7 = add_bits(ONE_BITS, mul_bits(mul_bits(w, C7_BITS), p8));
            let p6 = add_bits(ONE_BITS, mul_bits(mul_bits(w, I6_BITS), p7));
            let p5 = add_bits(ONE_BITS, mul_bits(mul_bits(w, C5_BITS), p6));
            let p4 = add_bits(ONE_BITS, mul_bits(mul_bits(w, I4_BITS), p5));
            let p3 = add_bits(ONE_BITS, mul_bits(mul_bits(w, C3_BITS), p4));
            let p2 = add_bits(ONE_BITS, mul_bits(mul_bits(w, HALF_BITS), p3));
            let p = add_bits(ONE_BITS, mul_bits(w, p2));
            if n >= -126 {
                mul_bits(p, ((n + 127) as u32) << 23u32)
            } else {
                0u32
            }
        }
    }
}

pub(crate) fn exp10_single(x: u32) -> (r: u32)
    ensures
        r == spec_exp10_single(x),
{
    let exp_bits: u32 = (x >> 23u32) & 0xffu32;
    let frac: u32 = x & 0x007f_ffffu32;
    if exp_bits == 0xffu32 && frac != 0u32 {
        return x;
    }
    if x == PLUS_INF_BITS {
        return PLUS_INF_BITS;
    }
    if x == MINUS_INF_BITS {
        return 0u32;
    }
    let z: u32 = single_mul(x, LOG2_10_BITS);
    if !single_lt(z, B128_BITS) {
        return PLUS_INF_BITS;
    }
    if single_lt(z, NEG150_BITS) {
        return 0u32;
    }
    let n0: i32 = single_floor_to_i32(z);
    let n: i32 = if n0 > 127 {
        127
    } else if n0 < -150 {
        -150
    } else {
        n0
    };
    let f: u32 = single_sub(z, int_to_single(n));
    let w: u32 = single_mul(f, LN2_BITS);
    let p8: u32 = single_add(ONE_BITS, single_mul(w, I8_BITS));
    let p7: u32 = single_add(ONE_BITS, single_mul(single_mul(w, C7_BITS), p8));
    let p6: u32 = single_add(ONE_BITS, single_mul(single_mul(w, I6_BITS), p7));
    let p5: u32 = single_add(ONE_BITS, single_mul(single_mul(w, C5_BITS), p6));
    let p4: u32 = single_add(ONE_BITS, single_mul(single_mul(w, I4_BITS), p5));
    let p3: u32 = single_add(ONE_BITS, single_mul(single_mul(w, C3_BITS), p4));
    let p2: u32 = single_add(ONE_BITS, single_mul(single_mul(w, HALF_BITS), p3));
    let p: u32 = single_add(ONE_BITS, single_mul(w, p2));
    if n >= -126 {
        let factor: u32 = ((n + 127) as u32) << 23u32;
        single_mul(p, factor)
    } else {
        0u32
    }
}

/// Convert frequency (Hz) to Mel scale: 2595 times the decimal logarithm of
/// one plus the frequency over 700.
pub open spec fn spec_hz_to_mel(f: u32) -> u32 {
    mul_bits(MEL_SCALE_BITS, spec_log10_single(add_bits(ONE_BITS, div_bits(f, HZ_BREAK_BITS))))
}

/// Convert frequency (Hz) to Mel scale.
pub fn hz_to_mel(f: u32) -> (r: u32)
    ensures
        r == spec_hz_to_mel(f),
{
    single_mul(
        MEL_SCALE_BITS,
        log10_single(single_add(ONE_BITS, single_div(f, HZ_BREAK_BITS))),
    )
}

/// Convert Mel scale value to frequency (Hz): 700 times one less than ten
/// raised to the value over 2595.
pub open spec fn spec_mel_to_hz(m: u32) -> u32 {
    mul_bits(HZ_BREAK_BITS, sub_bits(spec_exp10_single(div_bits(m, MEL_SCALE_BITS)), ONE_BITS))
}

/// Convert Mel scale value to frequency (Hz).
pub fn mel_to_hz(m: u32) -> (r: u32)
    ensures
        r == spec_mel_to_hz(m),
{
    single_mul(
        HZ_BREAK_BITS,
        single_sub(exp10_single(single_div(m, MEL_SCALE_BITS)), ONE_BITS),
    )
}

/// The step of a linear spacing: the distance over the number of steps.
pub open spec fn spec_linstep(start: u32, stop: u32, num: int) -> u32 {
    div_bits(sub_bits(stop, start), single_of_u64((num - 1) as u64))
}

/// The linearly spaced samples from `start` to `stop`: the empty sequence for
/// a count of zero, exactly `start` for a count of one, and otherwise the
/// start plus the sample index times the step.
pub open spec fn spec_linspace(start: u32, stop: u32, num: int) -> Seq<u32> {
    if num == 1 {
        seq![start]
    } else {
        Seq::new(
            if num >= 0 {
                num as nat
            } else {
                0
            },
            |i: int| add_bits(start, mul_bits(single_of_u64(i as u64), spec_linstep(start, stop, num))),
        )
    }
}

/// Generate linearly spaced values between start and stop with num total points.
pub fn linspace(start: u32, stop: u32, num: usize) -> (r: Vec<u32>)
    ensures
        r@ == spec_linspace(start, stop, num as int),
        r@.len() == num,
{
    if num == 0 {
        let r: Vec<u32> = Vec::new();
        assert(r@ =~= spec_linspace(start, stop, 0));
        return r;
    }
    if num == 1 {
        let mut r: Vec<u32> = Vec::new();
        r.push(start);
        assert(r@ =~= spec_linspace(start, stop, 1));
        return r;
    }
    let step: u32 = single_div(single_sub(stop, start), single_from_u64((num - 1) as u64));
    let mut r: Vec<u32> = Vec::new();
    let mut i: usize = 0;
    while i < num
        invariant
            i <= num,
            2 <= num,
            step == spec_linstep(start, stop, num as int),
            r@.len() == i,
            forall|j: int|
                0 <= j < i ==> r@[j] == add_bits(
                    start,
                    mul_bits(single_of_u64(j as u64), spec_linstep(start, stop, num as int)),
                ),
        decreases num - i,
    {
        let v: u32 = single_add(start, single_mul(single_from_u64(i as u64), step));
        r.push(v);
        i = i + 1;
    }
    assert(r@ =~= spec_linspace(start, stop, num as int));
    r
}

} // verus!
