//! The image-to-text pipeline: grayscale reduction, aspect-corrected
//! resizing, and quantization of luminance values into a nine-glyph ramp.

use vstd::prelude::*;
use vstd::arithmetic::mul::lemma_mul_upper_bound;
use crate::cli::Size;
use crate::img::{DecodedImage, GrayImage, luma_seq};
use crate::raster;
use crate::raster::triangle_resampled;

verus! {

/// Index of the glyph, from darkest (0) to lightest (8), that renders a
/// luminance value. The nine contiguous ranges have width 28 or 29 and
/// cover 0..=255 exactly.
pub open spec fn bucket(v: u8) -> int {
    if v <= 28 {
        0
    } else if v <= 56 {
        1
    } else if v <= 84 {
        2
    } else if v <= 112 {
        3
    } else if v <= 140 {
        4
    } else if v <= 168 {
        5
    } else if v <= 196 {
        6
    } else if v <= 224 {
        7
    } else {
        8
    }
}

/// The fixed nine-glyph ramp, darkest to lightest.
pub open spec fn ramp(b: int) -> char {
    if b == 0 {
        '@'
    } else if b == 1 {
        '#'
    } else if b == 2 {
        '8'
    } else if b == 3 {
        '&'
    } else if b == 4 {
        'o'
    } else if b == 5 {
        ':'
    } else if b == 6 {
        '*'
    } else if b == 7 {
        '.'
    } else {
        ' '
    }
}

/// The glyph that renders luminance `v`.
pub open spec fn glyph_of(v: u8) -> char {
    ramp(bucket(v))
}

/// Maps a luminance value to its glyph.
pub fn glyph(v: u8) -> (c: char)
    ensures
        c == glyph_of(v),
{
    if v <= 28 {
        '@'
    } else if v <= 56 {
        '#'
    } else if v <= 84 {
        '8'
    } else if v <= 112 {
        '&'
    } else if v <= 140 {
        'o'
    } else if v <= 168 {
        ':'
    } else if v <= 196 {
        '*'
    } else if v <= 224 {
        '.'
    } else {
        ' '
    }
}

/// The height of the character grid for a source of `x * y` pixels and a
/// target width of `w` columns: `w * y / x` scaled by the cell aspect
/// correction of 45/100, floored once — a single integer division of
/// `9 * w * y` by `20 * x`. A monospace cell is taller than it is wide, so
/// the row count is shrunk to keep the rendering's proportions.
pub open spec fn target_height(x: int, y: int, w: int) -> int
    recommends
        x > 0,
{
    (9 * w * y) / (20 * x)
}

/// Whether the resized image is small enough to compute: the height fits a
/// `u32`, and the resampler's buffers (16 bytes per pixel at the source and
/// the target width) stay addressable.
pub open spec fn fits(x: int, y: int, w: int) -> bool {
    &&& target_height(x, y, w) <= u32::MAX
    &&& 16 * x * target_height(x, y, w) <= usize::MAX
    &&& 16 * w * target_height(x, y, w) <= usize::MAX
}

/// The character grid for a row-major luminance buffer of `w * h` samples:
/// pixel `(i, j)` becomes the glyph of its luminance, at position `(i, j)`.
pub open spec fn grid_of(pix: Seq<u8>, w: int, h: int) -> Seq<Seq<char>>
    recommends
        w >= 0,
        h >= 0,
        pix.len() == w * h,
{
    Seq::new(h as nat, |j: int| Seq::new(w as nat, |i: int| glyph_of(pix[j * w + i])))
}

/// A grid of `h` rows of `w` copies of one glyph.
pub open spec fn uniform_grid(c: char, w: int, h: int) -> Seq<Seq<char>> {
    Seq::new(h as nat, |j: int| Seq::new(w as nat, |i: int| c))
}

/// The grid that the whole pipeline produces for a decoded image: its
/// luminance plane, resampled to `w` columns and the aspect-corrected row
/// count, quantized glyph by glyph.
pub open spec fn transform_spec(img: DecodedImage, w: int) -> Seq<Seq<char>> {
    let x = img.width as int;
    let y = img.height as int;
    let h = target_height(x, y, w);
    grid_of(triangle_resampled(luma_seq(img), x, y, w, h), w, h)
}

/// The pipeline fails on an image it cannot transform, atomically: there is
/// no partial grid.
#[derive(Clone, Copy, Debug, PartialEq, Eq)]
pub enum TransformError {
    /// The source width or the target width is zero.
    InvalidDimensions,
    /// The resized image would not fit in memory.
    TooLarge,
}

/// The bytes handed to the decoder do not hold a decodable image.
#[derive(Clone, Copy, Debug, PartialEq, Eq)]
pub enum DecodeError {
    Undecodable,
}

/// What `transform` returns for `img` at target width `w`: a grid exactly
/// when the source width, the target width and the size bounds allow one,
/// and the matching error otherwise.
pub open spec fn transform_result_ok(
    img: DecodedImage,
    w: int,
    r: Result<Vec<Vec<char>>, TransformError>,
) -> bool {
    let x = img.width as int;
    let y = img.height as int;
    match r {
        Ok(grid) => x > 0 && w > 0 && fits(x, y, w) && grid.deep_view() == transform_spec(img, w),
        Err(TransformError::InvalidDimensions) => x == 0 || w == 0,
        Err(TransformError::TooLarge) => x > 0 && w > 0 && !fits(x, y, w),
    }
}

/// Reduces a decoded image to grayscale: same dimensions, every pixel its
/// perceptual luminance.
pub fn to_grayscale(img: &DecodedImage) -> (g: GrayImage)
    requires
        img.wf(),
    ensures
        g.wf(),
        g.width == img.width,
        g.height == img.height,
        g.pixels@ == luma_seq(*img),
{
    let pixels = raster::gray_from_rgb(img);
    GrayImage { width: img.width, height: img.height, pixels }
}

/// Resizes a grayscale image to `width` columns and the aspect-corrected
/// row count `target_height`. Rejects a zero source or target width
/// explicitly, and an image whose resized form would not fit in memory.
pub fn resize(img: GrayImage, width: u32) -> (r: Result<GrayImage, TransformError>)
    requires
        img.wf(),
    ensures
        (match r {
            Ok(out) => {
                &&& img.width > 0
                &&& width > 0
                &&& fits(img.width as int, img.height as int, width as int)
                &&& out.wf()
                &&& out.width == width
                &&& out.height as int == target_height(
                    img.width as int,
                    img.height as int,
                    width as int,
                )
                &&& out.pixels@ == triangle_resampled(
                    img.pixels@,
                    img.width as int,
                    img.height as int,
                    width as int,
                    target_height(img.width as int, img.height as int, width as int),
                )
            },
            Err(TransformError::InvalidDimensions) => img.width == 0 || width == 0,
            Err(TransformError::TooLarge) => img.width > 0 && width > 0 && !fits(
                img.width as int,
                img.height as int,
                width as int,
            ),
        }),
{
    if img.width == 0 || width == 0 {
        return Err(TransformError::InvalidDimensions);
    }
    let x = img.width;
    let y = img.height;
    proof {
        lemma_mul_upper_bound(
            9 * (width as int),
            9 * (u32::MAX as int),
            y as int,
            u32::MAX as int,
        );
    }
    let th128: u128 = (9 * (width as u128) * (y as u128)) / (20 * (x as u128));
    if th128 > u32::MAX as u128 {
        return Err(TransformError::TooLarge);
    }
    let th: u32 = th128 as u32;
    proof {
        lemma_mul_upper_bound(16 * (x as int), 16 * (u32::MAX as int), th as int, u32::MAX as int);
        lemma_mul_upper_bound(
            16 * (width as int),
            16 * (u32::MAX as int),
            th as int,
            u32::MAX as int,
        );
    }
    let bx: u128 = 16 * (x as u128) * (th as u128);
    let bw: u128 = 16 * (width as u128) * (th as u128);
    if bx > usize::MAX as u128 || bw > usize::MAX as u128 {
        return Err(TransformError::TooLarge);
    }
    Ok(raster::resample_triangle(&img, width, th))
}

/// Quantizes a grayscale image into its character grid: row-major,
/// top-to-bottom, left-to-right, one glyph per pixel.
pub fn replace_pixel_with_char(img: &GrayImage) -> (grid: Vec<Vec<char>>)
    requires
        img.wf(),
    ensures
        grid.deep_view() == grid_of(img.pixels@, img.width as int, img.height as int),
{
    let w = img.width as usize;
    let h = img.height as usize;
    let n = img.pixels.len();
    let mut grid: Vec<Vec<char>> = Vec::new();
    let mut j: usize = 0;
    while j < h
        invariant
            img.wf(),
            w == img.width as int,
            h == img.height as int,
            n == (w as int) * (h as int),
            j <= h,
            grid@.len() == j,
            forall|jj: int| 0 <= jj < j ==> #[trigger] grid@[jj]@.len() == w,
            forall|jj: int, ii: int|
                0 <= jj < j && 0 <= ii < w ==> #[trigger] grid@[jj]@[ii] == glyph_of(
                    img.pixels@[jj * (w as int) + ii],
                ),
        decreases h - j,
    {
        let mut row: Vec<char> = Vec::new();
        let mut i: usize = 0;
        while i < w
            invariant
                img.wf(),
                w == img.width as int,
                h == img.height as int,
                n == (w as int) * (h as int),
                j < h,
                i <= w,
                row@.len() == i,
                forall|ii: int|
                    0 <= ii < i ==> #[trigger] row@[ii] == glyph_of(
                        img.pixels@[(j as int) * (w as int) + ii],
                    ),
            decreases w - i,
        {
            proof {
                assert(0 <= (j as int) * (w as int) && (j as int) * (w as int) + (i as int) < (
                w as int) * (h as int)) by (nonlinear_arith)
                    requires
                        0 <= (j as int) < (h as int),
                        0 <= (i as int) < (w as int),
                ;
            }
            let idx: usize = j * w + i;
            let c = glyph(img.pixels[idx]);
            row.push(c);
            i = i + 1;
        }
        grid.push(row);
        j = j + 1;
    }
    proof {
        let gv = grid.deep_view();
        let go = grid_of(img.pixels@, img.width as int, img.height as int);
        assert forall|jj: int| 0 <= jj < h implies gv[jj] =~= go[jj] by {
            assert(gv[jj].len() == w);
            assert(go[jj].len() == w);
            assert forall|ii: int| 0 <= ii < w implies gv[jj][ii] == go[jj][ii] by {
                assert(gv[jj][ii] == grid@[jj]@[ii]);
            }
        }
        assert(gv =~~= go);
    }
    grid
}

/// The number of character columns that a size preset selects; without a
/// preset the default width of 120 is used.
pub open spec fn size_width(s: Option<Size>) -> u32 {
    match s {
        Option::None => 120,
        Option::Some(Size::ExtraSmall) => 30,
        Option::Some(Size::Small) => 60,
        Option::Some(Size::Normal) => 120,
        Option::Some(Size::Large) => 240,
        Option::Some(Size::ExtraLarge) => 360,
    }
}

/// Resolves a size preset into a target width.
pub fn get_size(arg_size: &Option<Size>) -> (w: u32)
    ensures
        w == size_width(*arg_size),
        w > 0,
{
    match arg_size {
        Option::None => 120,
        Option::Some(Size::ExtraSmall) => 30,
        Option::Some(Size::Small) => 60,
        Option::Some(Size::Normal) => 120,
        Option::Some(Size::Large) => 240,
        Option::Some(Size::ExtraLarge) => 360,
    }
}

/// Turns encoded image bytes into a decoded RGB image, or a distinguishable
/// error when the bytes hold no decodable image.
pub fn decode(bytes: &Vec<u8>) -> (r: Result<DecodedImage, DecodeError>)
    ensures
        r matches Ok(img) ==> img.wf(),
{
    match raster::decode_rgb(bytes) {
        Ok(img) => Ok(img),
        Err(_) => Err(DecodeError::Undecodable),
    }
}

/// The whole pipeline for one image: grayscale, aspect-corrected resize,
/// quantization. Succeeds with the grid `transform_spec` describes exactly
/// when the source width, the target width and the size bounds allow one,
/// and fails atomically otherwise.
pub fn transform(img: &DecodedImage, width: u32) -> (r: Result<Vec<Vec<char>>, TransformError>)
    requires
        img.wf(),
    ensures
        transform_result_ok(*img, width as int, r),
{
    if img.width == 0 || width == 0 {
        return Err(TransformError::InvalidDimensions);
    }
    let gray = to_grayscale(img);
    match resize(gray, width) {
        Ok(small) => Ok(replace_pixel_with_char(&small)),
        Err(e) => Err(e),
    }
}

/// Renders a batch of decoded images at the width the size preset selects.
/// Each image succeeds or fails on its own: one failed item never stops the
/// rest of the batch.
pub fn run(images: &Vec<DecodedImage>, size: &Option<Size>) -> (out: Vec<
    Result<Vec<Vec<char>>, TransformError>,
>)
    requires
        forall|k: int| 0 <= k < images@.len() ==> #[trigger] images@[k].wf(),
    ensures
        out@.len() == images@.len(),
        forall|k: int|
            0 <= k < images@.len() ==> transform_result_ok(
                images@[k],
                size_width(*size) as int,
                #[trigger] out@[k],
            ),
{
    let width = get_size(size);
    let mut out: Vec<Result<Vec<Vec<char>>, TransformError>> = Vec::new();
    let mut k: usize = 0;
    while k < images.len()
        invariant
            forall|kk: int| 0 <= kk < images@.len() ==> #[trigger] images@[kk].wf(),
            width == size_width(*size),
            k <= images@.len(),
            out@.len() == k,
            forall|kk: int|
                0 <= kk < k ==> transform_result_ok(
                    images@[kk],
                    width as int,
                    #[trigger] out@[kk],
                ),
        decreases images@.len() - k,
    {
        let r = transform(&images[k], width);
        out.push(r);
        k = k + 1;
    }
    out
}

/// Every luminance value falls in exactly one bucket, and buckets do not
/// get darker as the value rises: glyph density is non-increasing in `v`.
pub proof fn lemma_bucket_monotone(v1: u8, v2: u8)
    requires
        v1 <= v2,
    ensures
        0 <= bucket(v1) <= 8,
        0 <= bucket(v2) <= 8,
        bucket(v1) <= bucket(v2),
{
}

/// A luminance plane whose samples all hold one value quantizes to a grid
/// of that value's glyph alone: an all-black plane renders as '@'
/// throughout, an all-white plane as ' ' throughout.
pub proof fn lemma_uniform_quantize(pix: Seq<u8>, w: int, h: int, v: u8)
    requires
        w >= 0,
        h >= 0,
        pix.len() == w * h,
        forall|k: int| 0 <= k < pix.len() ==> #[trigger] pix[k] == v,
    ensures
        grid_of(pix, w, h) == uniform_grid(glyph_of(v), w, h),
        v == 0 ==> glyph_of(v) == '@',
        v == 255 ==> glyph_of(v) == ' ',
{
    assert forall|j: int| 0 <= j < h implies grid_of(pix, w, h)[j] =~= uniform_grid(
        glyph_of(v),
        w,
        h,
    )[j] by {
        assert forall|i: int| 0 <= i < w implies grid_of(pix, w, h)[j][i] == glyph_of(v) by {
            assert(0 <= j * w + i < w * h) by (nonlinear_arith)
                requires
                    0 <= j < h,
                    0 <= i < w,
            ;
            assert(pix[j * w + i] == v);
        }
    }
    assert(grid_of(pix, w, h) =~~= uniform_grid(glyph_of(v), w, h));
}

/// The pipeline is a pure function of its inputs: two images with equal
/// dimensions and equal pixel data, transformed at the same target width,
/// are described by the same character grid.
pub proof fn lemma_transform_deterministic(a: DecodedImage, b: DecodedImage, w: int)
    requires
        a.width == b.width,
        a.height == b.height,
        a.pixels@ == b.pixels@,
    ensures
        transform_spec(a, w) == transform_spec(b, w),
{
    assert(luma_seq(a) =~= luma_seq(b));
}

} // verus!


