//! Fixed-point numbers in millionths.
//!
//! A value `v` of type `i64` stands for the real number `v / 1_000_000`.
//! Scores, normalized image coordinates, angles in degrees and durations in
//! seconds all use this one scale, so that a confidence of 0.95 is `950_000`
//! and a timeout of five seconds is `5_000_000`.

use vstd::prelude::*;
use vstd::arithmetic::div_mod::{lemma_basic_div, lemma_div_is_ordered};
use vstd::arithmetic::power2::{lemma2_to64, lemma2_to64_rest, lemma_pow2_strictly_increases, lemma_pow2_unfold, pow2};

verus! {

/// The representation of 1.0.
pub const UNIT: i64 = 1_000_000;

/// `x` limited to the closed interval from `lo` to `hi`.
pub open spec fn clamp(x: int, lo: int, hi: int) -> int {
    if x < lo {
        lo
    } else if x > hi {
        hi
    } else {
        x
    }
}

/// `x` limited to the unit interval.
pub open spec fn clamp_unit(x: int) -> int {
    clamp(x, 0, UNIT as int)
}

/// Whether `x` lies in the unit interval.
pub open spec fn in_unit(x: int) -> bool {
    0 <= x <= UNIT
}

/// The magnitude of `x`.
pub open spec fn magnitude(x: int) -> int {
    if x < 0 {
        -x
    } else {
        x
    }
}

/// The quotient of `a` by a positive `b`, rounded toward zero.
pub open spec fn quot(a: int, b: int) -> int
    recommends
        b > 0,
{
    if a >= 0 {
        a / b
    } else {
        -((-a) / b)
    }
}

/// Rounding toward zero keeps the order of quotients by a positive divisor.
pub proof fn lemma_quot_monotone(a: int, b: int, d: int)
    requires
        a <= b,
        d > 0,
    ensures
        quot(a, d) <= quot(b, d),
{
    if a >= 0 {
        lemma_div_is_ordered(a, b, d);
    } else if b >= 0 {
        lemma_div_is_ordered(0, -a, d);
        lemma_div_is_ordered(0, b, d);
    } else {
        lemma_div_is_ordered(-b, -a, d);
    }
}

/// Limits `x` to the unit interval.
pub fn clamp_to_unit(x: i64) -> (r: i64)
    ensures
        r == clamp_unit(x as int),
        in_unit(r as int),
{
    if x < 0 {
        0
    } else if x > UNIT {
        UNIT
    } else {
        x
    }
}

/// Divides by a positive divisor, rounding toward zero.
pub fn div_toward_zero(a: i64, b: i64) -> (r: i64)
    requires
        b > 0,
    ensures
        r == quot(a as int, b as int),
{
    a / b
}

/// Largest magnitude that a number converted from binary floating point may
/// have: two to the power of 62.
pub const FIXED_LIMIT: i64 = 0x4000_0000_0000_0000;

/// Whether the sign bit of an IEEE 754 single precision number is set.
pub open spec fn single_negative(bits: u32) -> bool {
    bits >= 0x8000_0000
}

/// The biased exponent of an IEEE 754 single precision number.
pub open spec fn single_exponent(bits: u32) -> int {
    ((bits / 0x80_0000) % 256) as int
}

/// The fraction bits of an IEEE 754 single precision number.
pub open spec fn single_fraction(bits: u32) -> int {
    (bits % 0x80_0000) as int
}

/// The significand of a finite single precision number, as an integer: the
/// number's magnitude is the significand times two to the `single_power`.
pub open spec fn single_significand(bits: u32) -> int {
    if single_exponent(bits) == 0 {
        single_fraction(bits)
    } else {
        single_fraction(bits) + 0x80_0000
    }
}

/// The power of two by which the significand of a finite single precision
/// number is scaled.
pub open spec fn single_power(bits: u32) -> int {
    if single_exponent(bits) == 0 {
        -149
    } else {
        single_exponent(bits) - 150
    }
}

/// The magnitude of a single precision number in millionths, rounded to the
/// nearest, halves up, and held at `FIXED_LIMIT`.  Infinity counts as the
/// limit, and what is not a number as zero.
pub open spec fn single_magnitude(bits: u32) -> int {
    let scaled = single_significand(bits) * UNIT;
    let power = single_power(bits);
    if single_exponent(bits) == 255 {
        if single_fraction(bits) == 0 {
            FIXED_LIMIT as int
        } else {
            0
        }
    } else if power >= 0 {
        if scaled * pow2(power as nat) > FIXED_LIMIT {
            FIXED_LIMIT as int
        } else {
            scaled * pow2(power as nat)
        }
    } else {
        (scaled + pow2((-power - 1) as nat)) / (pow2((-power) as nat) as int)
    }
}

/// The value of a single precision number in millionths, rounded to the
/// nearest, halves away from zero, and held between the limits.
pub open spec fn from_single(bits: u32) -> int {
    if single_negative(bits) {
        -single_magnitude(bits)
    } else {
        single_magnitude(bits)
    }
}

/// Two to the power of `e`.
fn power_of_two(e: u32) -> (p: u64)
    requires
        e <= 62,
    ensures
        p == pow2(e as nat),
        p <= 0x4000_0000_0000_0000,
{
    let mut p: u64 = 1;
    let mut i: u32 = 0;
    proof {
        lemma2_to64();
        lemma2_to64_rest();
    }
    while i < e
        invariant
            0 <= i <= e <= 62,
            p == pow2(i as nat),
            pow2(62) == 0x4000_0000_0000_0000,
        decreases e - i,
    {
        proof {
            lemma_pow2_unfold((i + 1) as nat);
            if i + 1 < 62 {
                lemma_pow2_strictly_increases((i + 1) as nat, 62);
            }
        }
        p = p * 2;
        i += 1;
    }
    p
}

/// Converts an IEEE 754 single precision number, given by its bits, to
/// millionths.
pub fn from_single_bits(bits: u32) -> (v: i64)
    ensures
        v == from_single(bits),
        -FIXED_LIMIT <= v <= FIXED_LIMIT,
{
    let negative = bits >= 0x8000_0000;
    let exponent: u32 = (bits / 0x80_0000) % 256;
    let fraction: u32 = bits % 0x80_0000;
    let magnitude: i64 = if exponent == 255 {
        if fraction == 0 {
            FIXED_LIMIT
        } else {
            0
        }
    } else {
        let significand: u64 = if exponent == 0 {
            fraction as u64
        } else {
            fraction as u64 + 0x80_0000
        };
        let scaled: u64 = significand * 1_000_000;
        proof {
            lemma2_to64();
            lemma2_to64_rest();
        }
        if exponent >= 150 {
            let power: u32 = exponent - 150;
            if power >= 20 {
                proof {
                    if power > 20 {
                        lemma_pow2_strictly_increases(20, power as nat);
                    }
                    assert(scaled * pow2(power as nat) > FIXED_LIMIT) by (nonlinear_arith)
                        requires
                            scaled >= 0x80_0000 * 1_000_000,
                            pow2(power as nat) >= 0x10_0000,
                            FIXED_LIMIT == 0x4000_0000_0000_0000,
                    ;
                }
                FIXED_LIMIT
            } else {
                let factor = power_of_two(power);
                proof {
                    if power < 19 {
                        lemma_pow2_strictly_increases(power as nat, 19);
                    }
                    assert(scaled * factor <= 0x1000_0000_0000 * 0x8_0000) by (nonlinear_arith)
                        requires
                            0 <= scaled <= 0x1000_0000_0000,
                            0 <= factor <= 0x8_0000,
                    ;
                }
                let product: u64 = scaled * factor;
                if product > FIXED_LIMIT as u64 {
                    FIXED_LIMIT
                } else {
                    product as i64
                }
            }
        } else {
            let shift: u32 = if exponent == 0 {
                149
            } else {
                150 - exponent
            };
            if shift >= 45 {
                proof {
                    if shift > 45 {
                        lemma_pow2_strictly_increases(45, shift as nat);
                    }
                    lemma_pow2_unfold(shift as nat);
                    lemma_basic_div(
                        scaled + pow2((shift - 1) as nat),
                        pow2(shift as nat) as int,
                    );
                }
                0
            } else {
                let divisor = power_of_two(shift);
                let half = power_of_two(shift - 1);
                proof {
                    lemma_pow2_unfold(shift as nat);
                    if shift < 44 {
                        lemma_pow2_strictly_increases(shift as nat, 44);
                    }
                }
                ((scaled + half) / divisor) as i64
            }
        }
    };
    if negative {
        -magnitude
    } else {
        magnitude
    }
}

} // verus!
