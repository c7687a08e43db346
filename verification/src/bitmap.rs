use vstd::prelude::*;

verus! {

/// An RGBA bitmap: a `width x height` grid of pixels, four 8-bit samples
/// per pixel, stored row-major with the samples of one pixel adjacent in
/// R, G, B, A order.
pub struct Bitmap {
    pub width: u32,
    pub height: u32,
    pub data: Vec<u8>,
}

impl Bitmap {
    /// Well-formed: the sample buffer holds exactly the pixel grid.
    pub open spec fn wf(self) -> bool {
        self.data.len() == 4 * ((self.width as int) * (self.height as int))
    }

    /// The sample of channel `c` (0 = R, 1 = G, 2 = B, 3 = A) of the pixel
    /// at column `x`, row `y`.
    pub open spec fn chan(self, x: int, y: int, c: int) -> u8 {
        self.data[4 * (y * (self.width as int) + x) + c]
    }
}

} // verus!
