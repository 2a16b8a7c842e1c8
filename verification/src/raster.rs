//! The boundary to the `image` crate: decoding, grayscale reduction and
//! resampling. Each function here is trusted; its contract states what the
//! crate's own code computes, and everything downstream is verified against
//! these contracts.

use vstd::prelude::*;
use crate::img::{DecodedImage, GrayImage, luma_seq};

verus! {

#[verifier::external_type_specification]
#[verifier::external_body]
pub struct ExImageError(image::error::ImageError);

/// What `image::imageops::resize` with the triangle filter returns for a
/// source sample buffer of the given dimensions and a target of `w * h`
/// pixels. The filter interpolates neighbouring source samples; its output
/// depends on the source pixels and the four dimensions alone.
pub uninterp spec fn triangle_resampled(src: Seq<u8>, src_w: int, src_h: int, w: int, h: int) -> Seq<u8>;

/// Relies on `image::load_from_memory`, which guesses the format of the
/// encoded bytes and decodes them, and on `DynamicImage::to_rgb8`, which
/// lays the decoded pixels out as three interleaved channel samples each.
#[verifier::external_body]
pub(crate) fn decode_rgb(bytes: &Vec<u8>) -> (r: Result<DecodedImage, image::error::ImageError>)
    ensures
        r matches Ok(img) ==> img.wf(),
{
    let rgb = image::load_from_memory(bytes)?.to_rgb8();
    let (width, height) = (rgb.width(), rgb.height());
    Ok(DecodedImage { width, height, pixels: rgb.into_raw() })
}

/// Relies on `image::imageops::grayscale`: every pixel `(r, g, b)` becomes
/// the single sample `(2126 r + 7152 g + 722 b) / 10000`, and the
/// dimensions are kept.
#[verifier::external_body]
pub(crate) fn gray_from_rgb(img: &DecodedImage) -> (r: Vec<u8>)
    requires
        img.wf(),
    ensures
        r@ == luma_seq(*img),
        r@.len() == (img.width as int) * (img.height as int),
{
    let buf = image::ImageBuffer::<image::Rgb<u8>, Vec<u8>>::from_raw(
        img.width, img.height, img.pixels.clone(),
    ).unwrap();
    image::imageops::grayscale(&buf).into_raw()
}

/// Relies on `image::imageops::resize` with `FilterType::Triangle`: the
/// result is a buffer of exactly `w * h` interpolated samples. The bounds on
/// `16 * w * h` and `16 * src_w * h` keep the resampler's intermediate
/// buffer allocations from overflowing a `usize`.
#[verifier::external_body]
pub(crate) fn resample_triangle(img: &GrayImage, w: u32, h: u32) -> (r: GrayImage)
    requires
        img.wf(),
        img.width > 0,
        w > 0,
        16 * (img.width as int) * (h as int) <= usize::MAX,
        16 * (w as int) * (h as int) <= usize::MAX,
    ensures
        r.width == w,
        r.height == h,
        r.wf(),
        r.pixels@ == triangle_resampled(
            img.pixels@, img.width as int, img.height as int, w as int, h as int,
        ),
{
    let buf = image::ImageBuffer::<image::Luma<u8>, Vec<u8>>::from_raw(
        img.width, img.height, img.pixels.clone(),
    ).unwrap();
    let out = image::imageops::resize(&buf, w, h, image::imageops::FilterType::Triangle);
    GrayImage { width: w, height: h, pixels: out.into_raw() }
}

} // verus!
