use matting::bitmap::Bitmap;
use matting::codec::{apply_alpha, decode, encode, shape_new};
use matting::error::Error;
use matting::scale::{final_dim, scale_factor, ScaleFactor};
use matting::score::alpha_from_bits;

fn solid(width: u32, height: u32, px: [u8; 4]) -> Bitmap {
    let count = (width as usize) * (height as usize);
    let mut data: Vec<u8> = Vec::with_capacity(4 * count);
    for _ in 0..count {
        data.extend_from_slice(&px);
    }
    Bitmap { width, height, data }
}

#[test]
fn scale_factor_picks_smaller_ratio() {
    let s = scale_factor(100, 50, 64, 64);
    assert_eq!(s.num, 64);
    assert_eq!(s.den, 100);
    assert_eq!(final_dim(100, &s), 64);
    assert_eq!(final_dim(50, &s), 32);
}

#[test]
fn scale_factor_clamps_to_one() {
    // A bitmap smaller than the model input in both dimensions: no upscale.
    let s = scale_factor(10, 10, 64, 64);
    assert_eq!(s.num, 1);
    assert_eq!(s.den, 1);
    assert_eq!(final_dim(10, &s), 10);
}

#[test]
fn scale_factor_shrinks_larger_input() {
    // Larger than the model input in both dimensions: strictly below 1.
    let s = scale_factor(200, 300, 64, 64);
    assert_eq!(s.num, 64);
    assert_eq!(s.den, 300);
    assert!(s.num < s.den);
}

#[test]
fn final_dim_rounds_half_up() {
    let s = ScaleFactor { num: 1, den: 2 };
    assert_eq!(final_dim(5, &s), 3); // 2.5 rounds away from zero
    assert_eq!(final_dim(4, &s), 2);
    let s3 = ScaleFactor { num: 1, den: 3 };
    assert_eq!(final_dim(4, &s3), 1); // 1.33 rounds down
    assert_eq!(final_dim(5, &s3), 2); // 1.66 rounds up
}

#[test]
fn shape_new_accepts_model_contract_only() {
    assert!(shape_new(1, 3, 64, 64).is_some());
    assert!(shape_new(2, 3, 64, 64).is_none());
    assert!(shape_new(1, 4, 64, 64).is_none());
    assert!(shape_new(1, 3, 0, 64).is_none());
    assert!(shape_new(1, 3, 64, 0).is_none());
    // The RGBA buffer must stay within a Vec's isize::MAX byte cap.
    assert!(shape_new(1, 3, 1 << 30, 1 << 31).is_none());
    assert!(shape_new(1, 3, 1 << 30, 1 << 30).is_some());
}

#[test]
fn encode_rejects_zero_width() {
    let bm = Bitmap { width: 0, height: 5, data: vec![] };
    let shape = shape_new(1, 3, 64, 64).unwrap();
    let r = encode(&bm, &shape);
    assert!(matches!(r, Err(Error::InvalidImage)));
}

#[test]
fn encode_rejects_zero_height() {
    let bm = Bitmap { width: 7, height: 0, data: vec![] };
    let shape = shape_new(1, 3, 64, 64).unwrap();
    let r = encode(&bm, &shape);
    assert!(matches!(r, Err(Error::InvalidImage)));
}

#[test]
fn encode_resizes_to_model_dimensions() {
    // 1x1 input grown to 2x2: the resize really ran, the buffer is new.
    let bm = solid(1, 1, [255, 0, 0, 255]);
    let shape = shape_new(1, 3, 2, 2).unwrap();
    let e = encode(&bm, &shape).unwrap();
    assert_eq!(e.resized.width, 2);
    assert_eq!(e.resized.height, 2);
    assert_eq!(e.resized.data.len(), 16);
    assert_eq!(e.tensor.len(), 12);
}

#[test]
fn encode_normalization_endpoints() {
    // A same-size resize of a constant image keeps the samples, so the
    // tensor holds the exact normalized numerators, channel-major.
    let bm = solid(2, 2, [0, 128, 255, 7]);
    let shape = shape_new(1, 3, 2, 2).unwrap();
    let e = encode(&bm, &shape).unwrap();
    assert_eq!(e.resized.data, bm.data);
    assert_eq!(
        e.tensor,
        vec![-128, -128, -128, -128, 0, 0, 0, 0, 127, 127, 127, 127]
    );
    // The float values the model sees: numerator / 256, exactly.
    assert_eq!(-128 as f32 / 256.0, -0.5);
    assert_eq!(127 as f32 / 256.0, 0.49609375);
    for t in &e.tensor {
        let v = *t as f32 / 256.0;
        assert!((-0.5..=0.49609375).contains(&v));
    }
}

#[test]
fn alpha_bits_round_trip() {
    assert_eq!(alpha_from_bits(1.0f32.to_bits()), 255);
    assert_eq!(alpha_from_bits(0.0f32.to_bits()), 0);
    assert_eq!(alpha_from_bits((-0.0f32).to_bits()), 0);
    assert_eq!(alpha_from_bits(1.5f32.to_bits()), 255); // clamps, not wraps
    assert_eq!(alpha_from_bits((-0.25f32).to_bits()), 0);
    assert_eq!(alpha_from_bits(f32::NAN.to_bits()), 0);
    assert_eq!(alpha_from_bits(f32::INFINITY.to_bits()), 255);
    assert_eq!(alpha_from_bits(f32::NEG_INFINITY.to_bits()), 0);
    assert_eq!(alpha_from_bits(0.5f32.to_bits()), 128); // 127.5 rounds up
    assert_eq!(alpha_from_bits(0.25f32.to_bits()), 64); // 63.75 rounds up
    assert_eq!(alpha_from_bits(1e-40f32.to_bits()), 0); // subnormal
    assert_eq!(alpha_from_bits(0.0039f32.to_bits()), 1);
}

#[test]
fn apply_alpha_all_ones_and_zeros() {
    let mut bm = solid(2, 2, [10, 20, 30, 40]);
    let ones: Vec<u32> = vec![1.0f32.to_bits(); 4];
    apply_alpha(&mut bm, &ones);
    for p in 0..4 {
        assert_eq!(&bm.data[4 * p..4 * p + 4], &[10, 20, 30, 255]);
    }
    let zeros: Vec<u32> = vec![0.0f32.to_bits(); 4];
    apply_alpha(&mut bm, &zeros);
    for p in 0..4 {
        assert_eq!(&bm.data[4 * p..4 * p + 4], &[10, 20, 30, 0]);
    }
}

#[test]
fn apply_alpha_clamps_out_of_range() {
    let mut bm = solid(1, 1, [1, 2, 3, 4]);
    apply_alpha(&mut bm, &vec![1.5f32.to_bits()]);
    assert_eq!(bm.data, vec![1, 2, 3, 255]);
}

#[test]
fn decode_rejects_shape_mismatch() {
    let bm = solid(2, 2, [9, 9, 9, 9]);
    let scores: Vec<u32> = vec![1.0f32.to_bits(); 3];
    let s = ScaleFactor { num: 1, den: 1 };
    let r = decode(bm, &scores, 2, 2, &s);
    assert!(matches!(r, Err(Error::ShapeMismatch)));
}

#[test]
fn end_to_end_dimensions() {
    // 100x50 bitmap, model input 64x64: scale = min(64/100, 64/50, 1)
    // = 0.64; inference bitmap is 64x64; output is (64, 32).
    let bm = solid(100, 50, [50, 100, 150, 255]);
    let shape = shape_new(1, 3, 64, 64).unwrap();
    let e = encode(&bm, &shape).unwrap();
    assert_eq!(e.resized.width, 64);
    assert_eq!(e.resized.height, 64);
    assert_eq!(e.scale, ScaleFactor { num: 64, den: 100 });
    let scores: Vec<u32> = vec![1.0f32.to_bits(); 64 * 64];
    let out = decode(e.resized, &scores, 100, 50, &e.scale).unwrap();
    assert_eq!(out.width, 64);
    assert_eq!(out.height, 32);
    assert_eq!(out.data.len(), 64 * 32 * 4);
}

#[test]
fn decode_keeps_scale_adjusted_size_without_upscaling() {
    // Small input: scale is 1, the output keeps the original dimensions.
    let bm = solid(3, 2, [1, 2, 3, 4]);
    let shape = shape_new(1, 3, 8, 8).unwrap();
    let e = encode(&bm, &shape).unwrap();
    assert_eq!(e.scale, ScaleFactor { num: 1, den: 1 });
    let scores: Vec<u32> = vec![0.0f32.to_bits(); 64];
    let out = decode(e.resized, &scores, 3, 2, &e.scale).unwrap();
    assert_eq!(out.width, 3);
    assert_eq!(out.height, 2);
}
