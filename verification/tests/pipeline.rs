use imagetext::img::{DecodedImage, GrayImage};
use imagetext::transform::{
    decode, resize, run, to_grayscale, transform, DecodeError, TransformError,
};

fn uniform_image(width: u32, height: u32, rgb: [u8; 3]) -> DecodedImage {
    let mut pixels = Vec::new();
    for _ in 0..(width as usize) * (height as usize) {
        pixels.extend_from_slice(&rgb);
    }
    DecodedImage { width, height, pixels }
}

#[test]
fn aspect_ratio_example() {
    let img = uniform_image(200, 100, [100, 100, 100]);
    let grid = transform(&img, 120).expect("transform should succeed");
    assert_eq!(grid.len(), 27);
    for row in &grid {
        assert_eq!(row.len(), 120);
    }
}

#[test]
fn mid_gray_end_to_end() {
    let img = uniform_image(10, 10, [150, 150, 150]);
    let grid = transform(&img, 10).expect("transform should succeed");
    assert_eq!(grid.len(), 4);
    for row in &grid {
        assert_eq!(row.len(), 10);
        assert!(row.iter().all(|&c| c == ':'));
    }
}

#[test]
fn transform_is_deterministic() {
    let img = uniform_image(20, 15, [37, 180, 91]);
    let first = transform(&img, 30).expect("transform should succeed");
    let second = transform(&img, 30).expect("transform should succeed");
    assert_eq!(first, second);
}

#[test]
fn zero_source_width_rejected() {
    let img = DecodedImage { width: 0, height: 5, pixels: vec![] };
    assert_eq!(transform(&img, 10), Err(TransformError::InvalidDimensions));
}

#[test]
fn zero_target_width_rejected() {
    let img = uniform_image(2, 2, [9, 9, 9]);
    assert_eq!(transform(&img, 0), Err(TransformError::InvalidDimensions));
}

#[test]
fn oversized_target_rejected() {
    let img = uniform_image(1, 3, [9, 9, 9]);
    assert_eq!(transform(&img, u32::MAX), Err(TransformError::TooLarge));
}

#[test]
fn degenerate_zero_height_grid() {
    let img = uniform_image(100, 1, [80, 80, 80]);
    let grid = transform(&img, 10).expect("a zero-height grid is still a grid");
    assert_eq!(grid.len(), 0);
}

#[test]
fn grayscale_weights_channels() {
    let img = DecodedImage {
        width: 2,
        height: 1,
        pixels: vec![255, 0, 0, 255, 255, 255],
    };
    let gray = to_grayscale(&img);
    assert_eq!(gray.width, 2);
    assert_eq!(gray.height, 1);
    assert_eq!(gray.pixels, vec![54, 255]);
}

#[test]
fn resize_shrinks_to_target_dimensions() {
    let img = GrayImage { width: 200, height: 100, pixels: vec![100u8; 20000] };
    let out = resize(img, 120).expect("resize should succeed");
    assert_eq!(out.width, 120);
    assert_eq!(out.height, 27);
    assert_eq!(out.pixels.len(), 120 * 27);
}

#[test]
fn decode_roundtrip() {
    let mut source = image::RgbImage::new(2, 1);
    source.put_pixel(0, 0, image::Rgb([255, 0, 0]));
    source.put_pixel(1, 0, image::Rgb([255, 255, 255]));
    let mut bytes = std::io::Cursor::new(Vec::new());
    image::DynamicImage::ImageRgb8(source)
        .write_to(&mut bytes, image::ImageOutputFormat::Png)
        .expect("encoding a png should succeed");
    let decoded = decode(&bytes.into_inner()).expect("decoding should succeed");
    assert_eq!(decoded.width, 2);
    assert_eq!(decoded.height, 1);
    assert_eq!(decoded.pixels, vec![255, 0, 0, 255, 255, 255]);
}

#[test]
fn decode_garbage_fails() {
    assert!(matches!(decode(&vec![1, 2, 3, 4]), Err(DecodeError::Undecodable)));
}

#[test]
fn batch_continues_past_failure() {
    let bad = DecodedImage { width: 0, height: 2, pixels: vec![] };
    let good = uniform_image(4, 4, [200, 200, 200]);
    let out = run(&vec![bad, good], &None);
    assert_eq!(out.len(), 2);
    assert_eq!(out[0], Err(TransformError::InvalidDimensions));
    let grid = out[1].as_ref().expect("the second image should render");
    assert_eq!(grid.len(), 54);
    assert_eq!(grid[0].len(), 120);
}
