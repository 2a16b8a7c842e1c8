//! Converts raster images into ASCII-art text renderings.
//!
//! The pipeline reduces a decoded image to grayscale, resizes it to a
//! target character-grid width with an aspect correction for the shape of
//! a monospace character cell, and maps each pixel's luminance to one of
//! nine glyphs ordered from darkest to lightest.

pub mod cli;
pub mod img;
pub mod raster;
pub mod transform;
