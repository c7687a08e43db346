use vstd::prelude::*;

verus! {

/// The error kinds the library surfaces.  Every kind propagates to the
/// caller of the top-level operation; none is recovered or retried.
#[derive(Clone, Copy, Debug, PartialEq, Eq, Structural)]
pub enum Error {
    /// The input bitmap has a zero width or a zero height; rejected before
    /// any resize or tensor work.
    InvalidImage,
    /// The output tensor's spatial size does not match the resized bitmap.
    ShapeMismatch,
    /// The inference engine could not construct an execution context.
    SessionConstruction,
    /// The inference engine failed during the forward pass.
    InferenceExecution,
}

} // verus!
