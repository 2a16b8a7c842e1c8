//! The two raster representations that flow through the pipeline: a decoded
//! RGB image and a single-channel luminance image.

use vstd::prelude::*;

verus! {

/// A decoded source image: `width * height` pixels in row-major order, each
/// pixel three channel samples (red, green, blue) stored interleaved.
pub struct DecodedImage {
    pub width: u32,
    pub height: u32,
    pub pixels: Vec<u8>,
}

impl DecodedImage {
    /// The sample buffer holds exactly three channels per pixel.
    pub open spec fn wf(self) -> bool {
        self.pixels@.len() == 3 * (self.width as int) * (self.height as int)
    }
}

/// A grayscale image: `width * height` luminance samples in row-major order,
/// top to bottom, left to right.
pub struct GrayImage {
    pub width: u32,
    pub height: u32,
    pub pixels: Vec<u8>,
}

impl GrayImage {
    /// The sample buffer holds exactly one luminance value per pixel.
    pub open spec fn wf(self) -> bool {
        self.pixels@.len() == (self.width as int) * (self.height as int)
    }
}

/// The perceptual luminance of one RGB pixel, as the grayscale reduction
/// computes it: a fixed-point weighting of the three channels.
pub open spec fn luma(r: u8, g: u8, b: u8) -> u8 {
    ((2126 * (r as int) + 7152 * (g as int) + 722 * (b as int)) / 10000) as u8
}

/// The luminance plane of a decoded image, pixel by pixel in row-major order.
pub open spec fn luma_seq(img: DecodedImage) -> Seq<u8> {
    Seq::new(
        ((img.width as int) * (img.height as int)) as nat,
        |k: int| luma(img.pixels@[3 * k], img.pixels@[3 * k + 1], img.pixels@[3 * k + 2]),
    )
}

} // verus!
