//! Floating-point numbers as the control surfaces read them: by their
//! bits, rounded to the nearest integer or compared with one.

use vstd::prelude::*;
use vstd::arithmetic::power2::{
    lemma2_to64, lemma2_to64_rest, lemma_pow2_pos, lemma_pow2_strictly_increases,
    lemma_pow2_unfold, pow2,
};

verus! {

/// The integer nearest to `significand * 2^scale`, a half rounded up.
pub open spec fn rounded_magnitude(significand: nat, scale: int) -> nat {
    if scale >= 0 {
        significand * pow2(scale as nat)
    } else {
        (significand + pow2((-scale - 1) as nat)) / pow2((-scale) as nat)
    }
}

/// The 32-bit integer with the given sign and magnitude, or the nearest
/// one there is where the magnitude is too large.
pub open spec fn saturated(negative: bool, magnitude: nat) -> i32 {
    if negative {
        if magnitude >= 0x8000_0000 {
            i32::MIN
        } else {
            (-(magnitude as int)) as i32
        }
    } else {
        if magnitude >= 0x7FFF_FFFF {
            i32::MAX
        } else {
            magnitude as i32
        }
    }
}

/// The integer nearest to the single-precision number with these bits, a
/// half rounded away from zero. A number beyond the 32-bit integers
/// gives the nearest of them, and what is no number gives zero.
pub open spec fn single_rounded(bits: u32) -> i32 {
    let negative = bits >= 0x8000_0000;
    let exponent = (bits / 0x80_0000) % 0x100;
    let fraction = bits % 0x80_0000;
    if exponent == 255 {
        if fraction != 0 {
            0
        } else {
            saturated(negative, 0x8000_0000)
        }
    } else if exponent == 0 {
        saturated(negative, rounded_magnitude(fraction as nat, -149))
    } else {
        saturated(negative, rounded_magnitude((0x80_0000 + fraction) as nat, exponent - 150))
    }
}

/// The same for the double-precision number with these bits.
pub open spec fn double_rounded(bits: u64) -> i32 {
    let negative = bits >= 0x8000_0000_0000_0000;
    let exponent = (bits / 0x10_0000_0000_0000) % 0x800;
    let fraction = bits % 0x10_0000_0000_0000;
    if exponent == 2047 {
        if fraction != 0 {
            0
        } else {
            saturated(negative, 0x8000_0000)
        }
    } else if exponent == 0 {
        saturated(negative, rounded_magnitude(fraction as nat, -1074))
    } else {
        saturated(
            negative,
            rounded_magnitude((0x10_0000_0000_0000 + fraction) as nat, exponent - 1075),
        )
    }
}

/// True where the single-precision bits denote a number: neither an
/// infinity nor what is no number.
pub open spec fn single_is_finite(bits: u32) -> bool {
    (bits / 0x80_0000) % 0x100 != 255
}

/// True where the double-precision bits denote a number: neither an
/// infinity nor what is no number.
pub open spec fn double_is_finite(bits: u64) -> bool {
    (bits / 0x10_0000_0000_0000) % 0x800 != 2047
}

/// True for the single-precision numbers that differ from one by less
/// than the machine epsilon: one itself and the number just below it.
pub open spec fn single_is_one(bits: u32) -> bool {
    bits == 0x3F80_0000 || bits == 0x3F7F_FFFF
}

/// The same for double precision.
pub open spec fn double_is_one(bits: u64) -> bool {
    bits == 0x3FF0_0000_0000_0000 || bits == 0x3FEF_FFFF_FFFF_FFFF
}

/// Two to the power `k`.
fn power_of_two(k: u32) -> (p: u64)
    requires
        k <= 62,
    ensures
        p == pow2(k as nat),
{
    let mut p: u64 = 1;
    let mut i: u32 = 0;
    proof {
        lemma2_to64();
    }
    while i < k
        invariant
            i <= k <= 62,
            p == pow2(i as nat),
        decreases k - i,
    {
        proof {
            lemma2_to64_rest();
            lemma_pow2_unfold((i + 1) as nat);
            if i < 61 {
                lemma_pow2_strictly_increases(i as nat, 61);
            }
        }
        p = p * 2;
        i += 1;
    }
    p
}

/// The integer nearest to `significand * 2^scale`.
fn round_scaled(significand: u64, scale: i32) -> (magnitude: u64)
    requires
        significand < 0x20_0000_0000_0000,
        -1200 <= scale <= 7,
        scale >= 0 ==> significand < 0x100_0000,
    ensures
        magnitude == rounded_magnitude(significand as nat, scale as int),
{
    if scale >= 0 {
        let factor: u64 = power_of_two(scale as u32);
        proof {
            lemma2_to64();
            if scale < 7 {
                lemma_pow2_strictly_increases(scale as nat, 7);
            }
            assert(significand * factor < 0x100_0000 * 0x80) by (nonlinear_arith)
                requires
                    significand < 0x100_0000,
                    0 < factor <= 0x80,
            ;
        }
        significand * factor
    } else {
        let shift: u32 = (-scale) as u32;
        if shift > 54 {
            proof {
                lemma2_to64_rest();
                let half = pow2((shift - 1) as nat);
                if shift - 1 > 54 {
                    lemma_pow2_strictly_increases(54, (shift - 1) as nat);
                }
                lemma_pow2_unfold(shift as nat);
                assert((significand + half) / (2 * half) as int == 0) by (nonlinear_arith)
                    requires
                        0 <= significand < half,
                ;
            }
            0
        } else {
            let half: u64 = power_of_two(shift - 1);
            let whole: u64 = power_of_two(shift);
            proof {
                lemma2_to64_rest();
                lemma_pow2_unfold(shift as nat);
                if shift - 1 < 53 {
                    lemma_pow2_strictly_increases((shift - 1) as nat, 53);
                }
                lemma_pow2_pos(shift as nat);
            }
            (significand + half) / whole
        }
    }
}

/// The 32-bit integer with the given sign and magnitude, saturating.
fn saturate(negative: bool, magnitude: u64) -> (value: i32)
    ensures
        value == saturated(negative, magnitude as nat),
{
    if negative {
        if magnitude >= 0x8000_0000 {
            i32::MIN
        } else {
            -(magnitude as i64) as i32
        }
    } else {
        if magnitude >= 0x7FFF_FFFF {
            i32::MAX
        } else {
            magnitude as i32
        }
    }
}

/// Rounds the single-precision number with these bits to the nearest
/// 32-bit integer.
pub fn round_single(bits: u32) -> (value: i32)
    ensures
        value == single_rounded(bits),
{
    let negative: bool = bits >= 0x8000_0000;
    let exponent: u32 = (bits / 0x80_0000) % 0x100;
    let fraction: u32 = bits % 0x80_0000;
    if exponent == 255 {
        if fraction != 0 {
            0
        } else {
            saturate(negative, 0x8000_0000)
        }
    } else if exponent == 0 {
        saturate(negative, round_scaled(fraction as u64, -149))
    } else if exponent >= 158 {
        proof {
            let significand = (0x80_0000 + fraction) as nat;
            let factor = pow2((exponent - 150) as nat);
            lemma2_to64();
            if exponent > 158 {
                lemma_pow2_strictly_increases(8, (exponent - 150) as nat);
            }
            assert(significand * factor >= 0x8000_0000) by (nonlinear_arith)
                requires
                    significand >= 0x80_0000,
                    factor >= 0x100,
            ;
        }
        saturate(negative, 0x8000_0000)
    } else {
        saturate(negative, round_scaled(0x80_0000 + fraction as u64, exponent as i32 - 150))
    }
}

/// Rounds the double-precision number with these bits to the nearest
/// 32-bit integer.
pub fn round_double(bits: u64) -> (value: i32)
    ensures
        value == double_rounded(bits),
{
    let negative: bool = bits >= 0x8000_0000_0000_0000;
    let exponent: u64 = (bits / 0x10_0000_0000_0000) % 0x800;
    let fraction: u64 = bits % 0x10_0000_0000_0000;
    if exponent == 2047 {
        if fraction != 0 {
            0
        } else {
            saturate(negative, 0x8000_0000)
        }
    } else if exponent == 0 {
        saturate(negative, round_scaled(fraction, -1074))
    } else if exponent >= 1075 {
        proof {
            let significand = (0x10_0000_0000_0000 + fraction) as nat;
            let factor = pow2((exponent - 1075) as nat);
            lemma_pow2_pos((exponent - 1075) as nat);
            assert(significand * factor >= 0x8000_0000) by (nonlinear_arith)
                requires
                    significand >= 0x10_0000_0000_0000,
                    factor >= 1,
            ;
        }
        saturate(negative, 0x8000_0000)
    } else {
        saturate(negative, round_scaled(0x10_0000_0000_0000 + fraction, exponent as i32 - 1075))
    }
}

/// Tells whether the single-precision bits denote a number.
pub fn is_single_finite(bits: u32) -> (finite: bool)
    ensures
        finite == single_is_finite(bits),
{
    (bits / 0x80_0000) % 0x100 != 255
}

/// Tells whether the double-precision bits denote a number.
pub fn is_double_finite(bits: u64) -> (finite: bool)
    ensures
        finite == double_is_finite(bits),
{
    (bits / 0x10_0000_0000_0000) % 0x800 != 2047
}

/// Tells whether the single-precision number with these bits differs
/// from one by less than the machine epsilon.
pub fn is_single_one(bits: u32) -> (one: bool)
    ensures
        one == single_is_one(bits),
{
    bits == 0x3F80_0000 || bits == 0x3F7F_FFFF
}

/// Tells whether the double-precision number with these bits differs
/// from one by less than the machine epsilon.
pub fn is_double_one(bits: u64) -> (one: bool)
    ensures
        one == double_is_one(bits),
{
    bits == 0x3FF0_0000_0000_0000 || bits == 0x3FEF_FFFF_FFFF_FFFF
}

} // verus!
