//! Background removal around a fixed-shape segmentation model.
//!
//! The library converts an RGBA bitmap into the model's normalized input
//! tensor, and composites the model's per-pixel scores back into the
//! bitmap's alpha channel at a scale-adjusted resolution.  All numeric and
//! geometric logic is exact: the scale factor is a rational number, the
//! normalized tensor holds integer numerators over a fixed denominator of
//! 256, and model scores arrive as IEEE 754 single-precision bit patterns
//! that are decoded with integer arithmetic.  Running the model itself is
//! the caller's job: the library hands out the input tensor and takes the
//! output scores back as plain values.

pub mod bitmap;
pub mod codec;
pub mod error;
pub mod scale;
pub mod score;
