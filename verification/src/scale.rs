use vstd::prelude::*;

verus! {

/// A scale factor held exactly as the ratio `num / den`.
///
/// The factor is computed once per image and reused for the final resize,
/// so it is kept in the exact form it was derived in: no rounding happens
/// until a dimension is produced from it.  A well-formed factor satisfies
/// `0 < num <= den`, i.e. it never upscales.
#[derive(Clone, Copy, Debug, PartialEq, Eq, Structural)]
pub struct ScaleFactor {
    pub num: u32,
    pub den: u32,
}

impl ScaleFactor {
    pub open spec fn wf(self) -> bool {
        1 <= self.num <= self.den
    }
}

/// Numerator of `min(dw / sw, dh / sh, 1)` over source dimensions
/// `(sw, sh)` and target dimensions `(dw, dh)`.
pub open spec fn scale_num(sw: int, sh: int, dw: int, dh: int) -> int {
    if dw * sh <= dh * sw {
        if dw <= sw {
            dw
        } else {
            1
        }
    } else {
        if dh <= sh {
            dh
        } else {
            1
        }
    }
}

/// Denominator of `min(dw / sw, dh / sh, 1)`; see `scale_num`.
pub open spec fn scale_den(sw: int, sh: int, dw: int, dh: int) -> int {
    if dw * sh <= dh * sw {
        if dw <= sw {
            sw
        } else {
            1
        }
    } else {
        if dh <= sh {
            sh
        } else {
            1
        }
    }
}

/// `round(d * num / den)` with rounding half away from zero, written over
/// integers: `floor((2 * d * num + den) / (2 * den))`.
pub open spec fn round_scaled(d: int, num: int, den: int) -> int {
    (2 * d * num + den) / (2 * den)
}

/// The scale factor that maps a `src_w x src_h` bitmap into a
/// `dst_w x dst_h` model input: the smaller of the two axis ratios,
/// clamped to 1 so the image is never upscaled.
pub fn scale_factor(src_w: u32, src_h: u32, dst_w: u32, dst_h: u32) -> (r: ScaleFactor)
    requires
        src_w >= 1,
        src_h >= 1,
        dst_w >= 1,
        dst_h >= 1,
    ensures
        r.num == scale_num(src_w as int, src_h as int, dst_w as int, dst_h as int),
        r.den == scale_den(src_w as int, src_h as int, dst_w as int, dst_h as int),
        r.wf(),
{
    proof {
        lemma_u32_product_fits(dst_w as int, src_h as int);
        lemma_u32_product_fits(dst_h as int, src_w as int);
    }
    let wr: u64 = (dst_w as u64) * (src_h as u64);
    let hr: u64 = (dst_h as u64) * (src_w as u64);
    if wr <= hr {
        if dst_w <= src_w {
            ScaleFactor { num: dst_w, den: src_w }
        } else {
            ScaleFactor { num: 1, den: 1 }
        }
    } else {
        if dst_h <= src_h {
            ScaleFactor { num: dst_h, den: src_h }
        } else {
            ScaleFactor { num: 1, den: 1 }
        }
    }
}

/// One output dimension: the original dimension `d` scaled by the factor
/// and rounded half away from zero.  Never exceeds `d`.
pub fn final_dim(d: u32, s: &ScaleFactor) -> (r: u32)
    requires
        s.wf(),
    ensures
        r == round_scaled(d as int, s.num as int, s.den as int),
        r <= d,
{
    proof {
        lemma_u32_product_fits(d as int, s.num as int);
    }
    let dn: u128 = (d as u128) * (s.num as u128);
    let q: u128 = (2u128 * dn + (s.den as u128)) / (2u128 * (s.den as u128));
    proof {
        vstd::arithmetic::mul::lemma_mul_is_associative(2, d as int, s.num as int);
        lemma_round_scaled_le(d as int, s.num as int, s.den as int);
    }
    q as u32
}

/// The product of two 32-bit values fits well under every wider bound used
/// here.
pub proof fn lemma_u32_product_fits(x: int, y: int)
    requires
        0 <= x <= 0xffff_ffff,
        0 <= y <= 0xffff_ffff,
    ensures
        0 <= x * y <= 0xffff_ffff * 0xffff_ffff,
{
    assert(0 <= x * y <= 0xffff_ffff * 0xffff_ffff) by (nonlinear_arith)
        requires
            0 <= x <= 0xffff_ffff,
            0 <= y <= 0xffff_ffff,
    ;
}

/// Rounding a dimension through a factor that is at most 1 never grows it.
pub proof fn lemma_round_scaled_le(d: int, num: int, den: int)
    requires
        0 <= d,
        1 <= num <= den,
    ensures
        0 <= round_scaled(d, num, den) <= d,
{
    assert(2 * d * num + den < 2 * den * (d + 1)) by (nonlinear_arith)
        requires
            0 <= d,
            1 <= num <= den,
    ;
    assert(0 <= 2 * d * num + den) by (nonlinear_arith)
        requires
            0 <= d,
            1 <= num <= den,
    ;
    vstd::arithmetic::div_mod::lemma_multiply_divide_lt(2 * d * num + den, 2 * den, d + 1);
    vstd::arithmetic::div_mod::lemma_div_pos_is_pos(2 * d * num + den, 2 * den);
}

/// Shrinking never happens on an image that already fits: when the source
/// is no larger than the target on both axes, the factor is exactly 1.
pub proof fn lemma_scale_factor_unit(sw: int, sh: int, dw: int, dh: int)
    requires
        1 <= sw <= dw,
        1 <= sh <= dh,
    ensures
        scale_num(sw, sh, dw, dh) == scale_den(sw, sh, dw, dh),
{
}

/// No upscaling past 1, and strict shrinking when needed: when the source
/// strictly exceeds the target on both axes, the factor is strictly below 1.
pub proof fn lemma_scale_factor_shrinks(sw: int, sh: int, dw: int, dh: int)
    requires
        1 <= dw < sw,
        1 <= dh < sh,
    ensures
        scale_num(sw, sh, dw, dh) < scale_den(sw, sh, dw, dh),
{
}

} // verus!
