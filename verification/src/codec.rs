use vstd::prelude::*;
use crate::bitmap::Bitmap;
use crate::error::Error;
use crate::scale::{ScaleFactor, round_scaled, scale_den, scale_num, final_dim, scale_factor};
use crate::score::alpha_byte;
use crate::score::alpha_from_bits;

verus! {

/// The model's fixed input tensor shape: batch size, channels, height,
/// width, as the loaded model declares them.
#[derive(Clone, Copy, Debug, PartialEq, Eq, Structural)]
pub struct Shape {
    pub n: u32,
    pub c: u32,
    pub h: u32,
    pub w: u32,
}

impl Shape {
    /// The contract the codec supports: one image per batch, three color
    /// channels, a nonempty spatial size whose RGBA buffer can exist (a
    /// `Vec` holds at most `isize::MAX` bytes).
    pub open spec fn wf(self) -> bool {
        &&& self.n == 1
        &&& self.c == 3
        &&& 1 <= self.h
        &&& 1 <= self.w
        &&& 4 * ((self.w as int) * (self.h as int)) <= isize::MAX as int
    }
}

/// Checks the model's declared shape against the contract the codec
/// supports, so unverified callers can establish `wf` at run time.
pub fn shape_new(n: u32, c: u32, h: u32, w: u32) -> (r: Option<Shape>)
    ensures
        r is Some <==> (Shape { n, c, h, w }).wf(),
        r is Some ==> r->0 == (Shape { n, c, h, w }),
{
    proof {
        crate::scale::lemma_u32_product_fits(w as int, h as int);
        vstd::arithmetic::div_mod::lemma_fundamental_div_mod(isize::MAX as int, 4);
    }
    let wh_ok: bool = (w as u64) * (h as u64) <= (isize::MAX as u64) / 4;
    if n == 1 && c == 3 && h >= 1 && w >= 1 && wh_ok {
        Some(Shape { n, c, h, w })
    } else {
        None
    }
}

/// Flat index of element `(0, c, y, x)` in a dense row-major tensor of
/// shape `(1, 3, h, w)`.
pub open spec fn tensor_index(w: int, h: int, c: int, y: int, x: int) -> int {
    c * (w * h) + y * w + x
}

/// Tensor indices are ordered channel-major: every element written before
/// position `(c, y, x)` has a strictly smaller flat index.
proof fn lemma_tensor_index_order(w: int, h: int, cc: int, yy: int, xx: int, c: int, y: int, x: int)
    requires
        1 <= w,
        1 <= h,
        0 <= cc,
        0 <= yy < h,
        0 <= xx < w,
        0 <= c,
        0 <= y,
        0 <= x,
        cc < c || (cc == c && yy < y) || (cc == c && yy == y && xx < x),
    ensures
        0 <= tensor_index(w, h, cc, yy, xx) < c * (w * h) + y * w + x,
{
    assert(0 <= cc * (w * h) + yy * w + xx < c * (w * h) + y * w + x) by (nonlinear_arith)
        requires
            1 <= w,
            1 <= h,
            0 <= cc,
            0 <= yy < h,
            0 <= xx < w,
            0 <= c,
            0 <= y,
            0 <= x,
            cc < c || (cc == c && yy < y) || (cc == c && yy == y && xx < x),
    ;
}

/// What `imageops::resize` with the triangular filter returns for a given
/// RGBA buffer: a pure function of the source pixels and the dimensions.
pub uninterp spec fn triangle_resized(data: Seq<u8>, w: int, h: int, nw: int, nh: int) -> Seq<u8>;

/// Relies on image's `imageops::resize` with `FilterType::Triangle`: the
/// result is an RGBA buffer of exactly `nw x nh` pixels, and depends on
/// the source pixels and the four dimensions alone.  The resize samples
/// vertically first, through an intermediate float image of `w x nh`
/// pixels at 16 bytes each; that buffer and the output buffer must fit in
/// a `Vec`, whose capacity is capped at `isize::MAX` bytes.
#[verifier::external_body]
fn resize_triangle(data: &Vec<u8>, w: u32, h: u32, nw: u32, nh: u32) -> (r: Vec<u8>)
    requires
        data@.len() == 4 * ((w as int) * (h as int)),
        1 <= w,
        1 <= h,
        16 * ((w as int) * (nh as int)) <= isize::MAX as int,
        4 * ((nw as int) * (nh as int)) <= isize::MAX as int,
    ensures
        r@ == triangle_resized(data@, w as int, h as int, nw as int, nh as int),
        r@.len() == 4 * ((nw as int) * (nh as int)),
{
    let img: image::ImageBuffer<image::Rgba<u8>, Vec<u8>> = image::ImageBuffer::from_raw(
        w,
        h,
        data.clone(),
    ).unwrap();
    image::imageops::resize(&img, nw, nh, image::imageops::FilterType::Triangle).into_raw()
}

/// The model's normalized input, built from a bitmap that already has the
/// model's spatial dimensions.  Each element is the integer numerator of
/// the normalization `(v - 128) / 256`: the denominator is fixed, so the
/// tensor of 32-bit floats the model consumes is `t[i] / 256` exactly.
#[verifier::loop_isolation(false)]
pub fn build_tensor(bm: &Bitmap) -> (t: Vec<i16>)
    requires
        bm.wf(),
    ensures
        t@.len() == 3 * ((bm.width as int) * (bm.height as int)),
        forall|c: int, y: int, x: int|
            0 <= c < 3 && 0 <= y < bm.height && 0 <= x < bm.width ==> #[trigger] t@[tensor_index(
                bm.width as int,
                bm.height as int,
                c,
                y,
                x,
            )] as int == bm.chan(x, y, c) - 128,
        forall|i: int| 0 <= i < t@.len() ==> -128 <= #[trigger] t@[i] as int <= 127,
{
    let len: usize = bm.data.len();
    let w: usize = bm.width as usize;
    let h: usize = bm.height as usize;
    let wh: usize = w * h;
    let mut t: Vec<i16> = Vec::new();
    let mut c: usize = 0;
    while c < 3
        invariant
            c <= 3,
            t@.len() == c * (wh as int),
            forall|cc: int, yy: int, xx: int|
                0 <= cc < c && 0 <= yy < h && 0 <= xx < w ==> #[trigger] t@[tensor_index(
                    w as int,
                    h as int,
                    cc,
                    yy,
                    xx,
                )] as int == bm.chan(xx, yy, cc) - 128,
            forall|i: int| 0 <= i < t@.len() ==> -128 <= #[trigger] t@[i] as int <= 127,
        decreases 3 - c,
    {
        let mut y: usize = 0;
        while y < h
            invariant
                c < 3,
                y <= h,
                t@.len() == c * (wh as int) + y * (w as int),
                forall|cc: int, yy: int, xx: int|
                    0 <= cc < c && 0 <= yy < h && 0 <= xx < w ==> #[trigger] t@[tensor_index(
                        w as int,
                        h as int,
                        cc,
                        yy,
                        xx,
                    )] as int == bm.chan(xx, yy, cc) - 128,
                forall|yy: int, xx: int|
                    0 <= yy < y && 0 <= xx < w ==> #[trigger] t@[tensor_index(
                        w as int,
                        h as int,
                        c as int,
                        yy,
                        xx,
                    )] as int == bm.chan(xx, yy, c as int) - 128,
                forall|i: int| 0 <= i < t@.len() ==> -128 <= #[trigger] t@[i] as int <= 127,
            decreases h - y,
        {
            let mut x: usize = 0;
            while x < w
                invariant
                    c < 3,
                    y < h,
                    x <= w,
                    t@.len() == c * (wh as int) + y * (w as int) + x,
                    forall|cc: int, yy: int, xx: int|
                        0 <= cc < c && 0 <= yy < h && 0 <= xx < w ==> #[trigger] t@[tensor_index(
                            w as int,
                            h as int,
                            cc,
                            yy,
                            xx,
                        )] as int == bm.chan(xx, yy, cc) - 128,
                    forall|yy: int, xx: int|
                        0 <= yy < y && 0 <= xx < w ==> #[trigger] t@[tensor_index(
                            w as int,
                            h as int,
                            c as int,
                            yy,
                            xx,
                        )] as int == bm.chan(xx, yy, c as int) - 128,
                    forall|xx: int|
                        0 <= xx < x ==> #[trigger] t@[tensor_index(
                            w as int,
                            h as int,
                            c as int,
                            y as int,
                            xx,
                        )] as int == bm.chan(xx, y as int, c as int) - 128,
                    forall|i: int| 0 <= i < t@.len() ==> -128 <= #[trigger] t@[i] as int <= 127,
                decreases w - x,
            {
                proof {
                    assert((y as int) * (w as int) + x < (w as int) * (h as int))
                        by (nonlinear_arith)
                        requires
                            0 <= y < h,
                            0 <= x < w,
                    ;
                }
                let pix: usize = y * w + x;
                let idx: usize = 4 * pix + c;
                let v: u8 = bm.data[idx];
                let val: i16 = v as i16 - 128;
                t.push(val);
                proof {
                    assert forall|cc: int, yy: int, xx: int|
                        0 <= cc < c && 0 <= yy < h && 0 <= xx < w implies #[trigger] t@[tensor_index(
                        w as int,
                        h as int,
                        cc,
                        yy,
                        xx,
                    )] as int == bm.chan(xx, yy, cc) - 128 by {
                        lemma_tensor_index_order(
                            w as int,
                            h as int,
                            cc,
                            yy,
                            xx,
                            c as int,
                            y as int,
                            x as int,
                        );
                    }
                    assert forall|yy: int, xx: int|
                        0 <= yy < y && 0 <= xx < w implies #[trigger] t@[tensor_index(
                        w as int,
                        h as int,
                        c as int,
                        yy,
                        xx,
                    )] as int == bm.chan(xx, yy, c as int) - 128 by {
                        lemma_tensor_index_order(
                            w as int,
                            h as int,
                            c as int,
                            yy,
                            xx,
                            c as int,
                            y as int,
                            x as int,
                        );
                    }
                    assert forall|xx: int|
                        0 <= xx < x + 1 implies #[trigger] t@[tensor_index(
                        w as int,
                        h as int,
                        c as int,
                        y as int,
                        xx,
                    )] as int == bm.chan(xx, y as int, c as int) - 128 by {
                        if xx < x {
                            lemma_tensor_index_order(
                                w as int,
                                h as int,
                                c as int,
                                y as int,
                                xx,
                                c as int,
                                y as int,
                                x as int,
                            );
                        }
                    }
                }
                x = x + 1;
            }
            proof {
                assert((y as int + 1) * (w as int) == (y as int) * (w as int) + (w as int))
                    by (nonlinear_arith);
            }
            y = y + 1;
        }
        proof {
            assert((h as int) * (w as int) == (w as int) * (h as int)) by (nonlinear_arith);
            assert((c as int + 1) * (wh as int) == (c as int) * (wh as int) + (wh as int))
                by (nonlinear_arith);
        }
        c = c + 1;
    }
    t
}

/// The normalization `(v - 128) / 256` maps every 8-bit sample into
/// `[-0.5, 127/256]`: the numerator lies in `[-128, 127]`, and the
/// endpoints are attained exactly at samples 0 and 255.  In particular no
/// tensor element is ever NaN or infinite.
pub proof fn lemma_normalization_range(v: u8)
    ensures
        -128 <= v - 128 <= 127,
        v == 0 ==> v - 128 == -128,
        v == 255 ==> v - 128 == 127,
{
}

/// What `encode` hands back: the bitmap resized to the model's spatial
/// dimensions, the normalized input tensor, and the exact scale factor.
pub struct Encoded {
    pub resized: Bitmap,
    pub tensor: Vec<i16>,
    pub scale: ScaleFactor,
}

/// Converts a decoded RGBA bitmap into the model's input contract: the
/// bitmap resized with the triangular filter to exactly the model's
/// spatial dimensions, the normalized tensor over the resized pixels, and
/// the scale factor `min(w / width, h / height, 1)` kept exactly for the
/// final resize.  A bitmap with a zero dimension is rejected before any
/// resize or tensor work.
pub fn encode(bitmap: &Bitmap, shape: &Shape) -> (r: Result<Encoded, Error>)
    requires
        bitmap.wf(),
        shape.wf(),
        16 * ((bitmap.width as int) * (shape.h as int)) <= isize::MAX as int,
    ensures
        (bitmap.width == 0 || bitmap.height == 0) <==> r is Err,
        r is Err ==> r->Err_0 == Error::InvalidImage,
        r is Ok ==> ({
            let e = r->Ok_0;
            &&& e.resized.wf()
            &&& e.resized.width == shape.w
            &&& e.resized.height == shape.h
            &&& e.resized.data@ == triangle_resized(
                bitmap.data@,
                bitmap.width as int,
                bitmap.height as int,
                shape.w as int,
                shape.h as int,
            )
            &&& e.scale.num as int == scale_num(
                bitmap.width as int,
                bitmap.height as int,
                shape.w as int,
                shape.h as int,
            )
            &&& e.scale.den as int == scale_den(
                bitmap.width as int,
                bitmap.height as int,
                shape.w as int,
                shape.h as int,
            )
            &&& e.scale.wf()
            &&& e.tensor@.len() == 3 * ((shape.w as int) * (shape.h as int))
            &&& forall|c: int, y: int, x: int|
                0 <= c < 3 && 0 <= y < shape.h && 0 <= x < shape.w
                    ==> #[trigger] e.tensor@[tensor_index(
                    shape.w as int,
                    shape.h as int,
                    c,
                    y,
                    x,
                )] as int == e.resized.chan(x, y, c) - 128
            &&& forall|i: int| 0 <= i < e.tensor@.len() ==> -128 <= #[trigger] e.tensor@[i] as int
                <= 127
        }),
{
    if bitmap.width == 0 || bitmap.height == 0 {
        return Err(Error::InvalidImage);
    }
    let scale = scale_factor(bitmap.width, bitmap.height, shape.w, shape.h);
    let rdata = resize_triangle(&bitmap.data, bitmap.width, bitmap.height, shape.w, shape.h);
    let resized = Bitmap { width: shape.w, height: shape.h, data: rdata };
    let tensor = build_tensor(&resized);
    Ok(Encoded { resized, tensor, scale })
}

/// Writes the model's per-pixel scores into the bitmap's alpha channel:
/// sample `4p + 3` becomes `round(clamp(score_p, 0, 1) * 255)`, with the
/// scores given row-major as single-precision bit patterns.  The color
/// samples are untouched.
#[verifier::loop_isolation(false)]
pub fn apply_alpha(bm: &mut Bitmap, scores: &Vec<u32>)
    requires
        old(bm).wf(),
        scores@.len() == (old(bm).width as int) * (old(bm).height as int),
    ensures
        final(bm).wf(),
        final(bm).width == old(bm).width,
        final(bm).height == old(bm).height,
        forall|i: int|
            0 <= i < final(bm).data@.len() ==> final(bm).data@[i] == (if i % 4 == 3 {
                alpha_byte(scores@[i / 4])
            } else {
                old(bm).data@[i]
            }),
{
    let count: usize = scores.len();
    let mut p: usize = 0;
    while p < count
        invariant
            p <= count,
            bm.width == old(bm).width,
            bm.height == old(bm).height,
            bm.data@.len() == old(bm).data@.len(),
            forall|i: int|
                0 <= i < bm.data@.len() ==> bm.data@[i] == (if i % 4 == 3 && i / 4 < p {
                    alpha_byte(scores@[i / 4])
                } else {
                    old(bm).data@[i]
                }),
        decreases count - p,
    {
        let a: u8 = alpha_from_bits(scores[p]);
        let idx: usize = 4 * p + 3;
        proof {
            vstd::arithmetic::div_mod::lemma_fundamental_div_mod_converse(
                4 * (p as int) + 3,
                4,
                p as int,
                3,
            );
        }
        bm.data.set(idx, a);
        p = p + 1;
    }
}

/// The sample buffer of a bitmap after its alpha channel has been
/// replaced by the decoded scores.
pub open spec fn composited(bm: Bitmap, scores: Seq<u32>) -> Seq<u8> {
    Seq::new(
        bm.data@.len(),
        |i: int|
            if i % 4 == 3 {
                alpha_byte(scores[i / 4])
            } else {
                bm.data@[i]
            },
    )
}

/// Converts the model's output scores back into an image: the scores are
/// composited into the resized bitmap's alpha channel, and the result is
/// resized with the triangular filter to the original dimensions scaled
/// by the factor computed during `encode` — `round(orig * scale)` on each
/// axis, never upscaling.  Scores whose count does not match the resized
/// bitmap's pixel grid break the model's contract and are rejected.
pub fn decode(resized: Bitmap, scores: &Vec<u32>, orig_w: u32, orig_h: u32, scale: &ScaleFactor)
    -> (r: Result<Bitmap, Error>)
    requires
        resized.wf(),
        1 <= resized.width,
        1 <= resized.height,
        scale.wf(),
        4 * ((orig_w as int) * (orig_h as int)) <= isize::MAX as int,
        16 * ((resized.width as int) * (orig_h as int)) <= isize::MAX as int,
    ensures
        (scores@.len() == (resized.width as int) * (resized.height as int)) <==> r is Ok,
        r is Err ==> r->Err_0 == Error::ShapeMismatch,
        r is Ok ==> ({
            let out = r->Ok_0;
            &&& out.wf()
            &&& out.width as int == round_scaled(orig_w as int, scale.num as int, scale.den as int)
            &&& out.height as int == round_scaled(orig_h as int, scale.num as int, scale.den as int)
            &&& out.data@ == triangle_resized(
                composited(resized, scores@),
                resized.width as int,
                resized.height as int,
                out.width as int,
                out.height as int,
            )
        }),
{
    let len: usize = resized.data.len();
    let expected: usize = len / 4;
    proof {
        vstd::arithmetic::div_mod::lemma_fundamental_div_mod_converse(
            len as int,
            4,
            (resized.width as int) * (resized.height as int),
            0,
        );
    }
    if scores.len() != expected {
        return Err(Error::ShapeMismatch);
    }
    let fw: u32 = final_dim(orig_w, scale);
    let fh: u32 = final_dim(orig_h, scale);
    let mut bm = resized;
    apply_alpha(&mut bm, scores);
    proof {
        assert(bm.data@ =~= composited(resized, scores@));
        assert(4 * ((fw as int) * (fh as int)) <= 4 * ((orig_w as int) * (orig_h as int)))
            by (nonlinear_arith)
            requires
                0 <= fw <= orig_w,
                0 <= fh <= orig_h,
        ;
        assert(16 * ((resized.width as int) * (fh as int)) <= 16 * ((resized.width as int) * (
        orig_h as int))) by (nonlinear_arith)
            requires
                0 <= resized.width,
                0 <= fh <= orig_h,
        ;
    }
    let fdata = resize_triangle(&bm.data, bm.width, bm.height, fw, fh);
    Ok(Bitmap { width: fw, height: fh, data: fdata })
}

} // verus!
