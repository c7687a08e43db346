use vstd::prelude::*;
use vstd::arithmetic::power2::pow2;

verus! {

/// Sign bit of a single-precision float given as its bit pattern.
pub open spec fn f32_sign(b: u32) -> u32 {
    b >> 31u32
}

/// Biased exponent field of a single-precision float bit pattern.
pub open spec fn f32_exp(b: u32) -> u32 {
    (b >> 23u32) & 0xff
}

/// Fraction (mantissa) field of a single-precision float bit pattern.
pub open spec fn f32_frac(b: u32) -> u32 {
    b & 0x7f_ffff
}

/// `n / d` rounded half away from zero, for `d > 0`, written over
/// integers: `floor((2n + d) / 2d)`.
pub open spec fn round_div(n: int, d: int) -> int {
    (2 * n + d) / (2 * d)
}

/// The 8-bit alpha value that one raw model score yields:
/// `round(clamp(v, 0, 1) * 255)`, where `v` is the single-precision float
/// whose bit pattern is `b`.
///
/// The arithmetic is exact.  A normal positive float below 1 has the value
/// `(2^23 + frac) * 2^(exp - 150)`, so the scaled score is the rational
/// `(2^23 + frac) * 255 / 2^(150 - exp)`.  Negative scores (`-0.0`
/// included) clamp to 0, scores of 1 or more clamp to 255, zero and
/// subnormal scores lie below `2^-126` and round to 0, positive infinity
/// clamps to 255, and a NaN counts as no foreground at all, i.e. 0.
pub open spec fn alpha_score(b: u32) -> int {
    if f32_sign(b) == 1 {
        0
    } else if f32_exp(b) == 255 {
        if f32_frac(b) == 0 {
            255
        } else {
            0
        }
    } else if f32_exp(b) >= 127 {
        255
    } else if f32_exp(b) == 0 {
        0
    } else {
        round_div((0x80_0000 + f32_frac(b)) * 255, pow2((150 - f32_exp(b)) as nat) as int)
    }
}

/// `alpha_score` as the byte it always fits in.
pub open spec fn alpha_byte(b: u32) -> u8 {
    alpha_score(b) as u8
}

/// Rounding `n / d` half away from zero equals adding `d / 2` and
/// flooring, and the result fits in a byte when `n` is small enough.
proof fn lemma_round_half(n: int, h: int, d: int)
    requires
        1 <= h,
        d == 2 * h,
        0 <= n,
        n + h < 256 * d,
    ensures
        round_div(n, d) == (n + h) / d,
        0 <= (n + h) / d < 256,
{
    assert(2 * n + d == 2 * (n + h));
    vstd::arithmetic::div_mod::lemma_div_denominator(2 * (n + h), 2, d);
    assert((2 * (n + h)) / 2 == n + h) by {
        vstd::arithmetic::div_mod::lemma_div_by_multiple(n + h, 2);
        vstd::arithmetic::mul::lemma_mul_is_commutative(n + h, 2);
    }
    vstd::arithmetic::div_mod::lemma_multiply_divide_lt(n + h, d, 256);
    vstd::arithmetic::div_mod::lemma_div_pos_is_pos(n + h, d);
}

/// For an exponent field of 116 or less the score is below `2^-10`, so
/// the rounded scaled score is 0.
proof fn lemma_small_score_rounds_to_zero(exp: u32, frac: u32)
    requires
        1 <= exp <= 116,
        frac < 0x80_0000,
    ensures
        round_div((0x80_0000 + frac) * 255, pow2((150 - exp) as nat) as int) == 0,
{
    let n = (0x80_0000 + frac) * 255int;
    let s = (150 - exp) as nat;
    let d = pow2(s) as int;
    vstd::arithmetic::power2::lemma2_to64_rest();
    if s > 34 {
        vstd::arithmetic::power2::lemma_pow2_strictly_increases(34, s);
    }
    assert(0 <= 2 * n + d < 2 * d);
    vstd::arithmetic::div_mod::lemma_basic_div(2 * n + d, 2 * d);
}

/// Facts about `2^(shift - 1)` and `2^shift` for a shift between 24
/// and 33: the half step doubles to the full step, both fit in a `u64`,
/// and the full step is at least `2^24`.
proof fn lemma_shift_steps(s: nat)
    requires
        24 <= s <= 33,
    ensures
        pow2(s) == 2 * pow2((s - 1) as nat),
        0x100_0000 <= pow2(s),
        pow2((s - 1) as nat) <= 0x1_0000_0000,
        1 * pow2((s - 1) as nat) <= u64::MAX,
{
    vstd::arithmetic::power2::lemma2_to64();
    vstd::arithmetic::power2::lemma_pow2_adds((s - 1) as nat, 1);
    if s > 24 {
        vstd::arithmetic::power2::lemma_pow2_strictly_increases(24, s);
    }
    if s - 1 < 32 {
        vstd::arithmetic::power2::lemma_pow2_strictly_increases((s - 1) as nat, 32);
    }
}

/// The alpha value of one raw model score, handed over as the bit pattern
/// of a single-precision float.
pub fn alpha_from_bits(b: u32) -> (r: u8)
    ensures
        r as int == alpha_score(b),
        r == alpha_byte(b),
{
    let sign: u32 = b >> 31u32;
    let exp: u32 = (b >> 23u32) & 0xff;
    let frac: u32 = b & 0x7f_ffff;
    proof {
        assert((b >> 23u32) & 0xff < 256u32) by (bit_vector);
        assert(b & 0x7f_ffff < 0x80_0000u32) by (bit_vector);
    }
    if sign == 1 {
        0
    } else if exp == 255 {
        if frac == 0 {
            255
        } else {
            0
        }
    } else if exp >= 127 {
        255
    } else if exp <= 116 {
        // Zero, subnormal, or simply far too small to round up to 1.
        proof {
            if exp != 0 {
                lemma_small_score_rounds_to_zero(exp, frac);
            }
        }
        0
    } else {
        // 117 <= exp <= 126, so the shift is between 24 and 33.
        let shift: u32 = 150 - exp;
        let n: u64 = (0x80_0000u64 + frac as u64) * 255;
        let sh1: u64 = (shift - 1) as u64;
        let s64: u64 = shift as u64;
        proof {
            lemma_shift_steps(s64 as nat);
            vstd::bits::lemma_u64_shl_is_mul(1u64, sh1);
        }
        let half: u64 = 1u64 << sh1;
        let sum: u64 = n + half;
        let r64: u64 = sum >> s64;
        proof {
            vstd::bits::lemma_u64_shr_is_div(sum, s64);
            lemma_round_half(n as int, half as int, pow2(s64 as nat) as int);
        }
        r64 as u8
    }
}

/// Every score yields an alpha value that fits in a byte, so `alpha_byte`
/// loses nothing.
pub proof fn lemma_alpha_score_bounded(b: u32)
    ensures
        0 <= alpha_score(b) <= 255,
        alpha_byte(b) as int == alpha_score(b),
{
    assert((b >> 23u32) & 0xff < 256u32) by (bit_vector);
    assert(b & 0x7f_ffff < 0x80_0000u32) by (bit_vector);
    let exp = f32_exp(b);
    let frac = f32_frac(b);
    if f32_sign(b) != 1 && exp != 255 && exp < 127 && exp != 0 {
        if exp <= 116 {
            lemma_small_score_rounds_to_zero(exp, frac);
        } else {
            let s = (150 - exp) as nat;
            let n = (0x80_0000 + frac) * 255int;
            let h = pow2((s - 1) as nat) as int;
            let d = pow2(s) as int;
            lemma_shift_steps(s);
            lemma_round_half(n, h, d);
        }
    }
}

} // verus!
