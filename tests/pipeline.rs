use image::{DynamicImage, ImageOutputFormat, Rgb, RgbImage, Rgba, RgbaImage};
use resizer::{compress, resize, Error, MAX_EDGE, QUALITY};
use std::io::Cursor;

fn png_bytes(img: DynamicImage) -> Vec<u8> {
    let mut out = Cursor::new(Vec::new());
    img.write_to(&mut out, ImageOutputFormat::Png).unwrap();
    out.into_inner()
}

fn solid_png(width: u32, height: u32, color: [u8; 3]) -> Vec<u8> {
    png_bytes(DynamicImage::ImageRgb8(RgbImage::from_pixel(width, height, Rgb(color))))
}

fn is_jpeg(bytes: &[u8]) -> bool {
    bytes.len() >= 4
        && bytes[0] == 0xFF
        && bytes[1] == 0xD8
        && bytes[bytes.len() - 2] == 0xFF
        && bytes[bytes.len() - 1] == 0xD9
}

fn fitted(width: u32, height: u32, size: usize) -> (usize, usize) {
    let (bytes, w, h) = resize(&solid_png(width, height, [50, 60, 70]), size).unwrap();
    assert_eq!(bytes.len(), w * h * 3);
    (w, h)
}

#[test]
fn fit_long_side_fills_box() {
    assert_eq!(fitted(100, 50, 80), (80, 40));
    assert_eq!(fitted(100, 50, 40), (40, 20));
    assert_eq!(fitted(50, 100, 80), (40, 80));
    assert_eq!(fitted(64, 64, 32), (32, 32));
}

#[test]
fn fit_rounds_and_upscales() {
    assert_eq!(fitted(2, 1, 3), (3, 2));
    assert_eq!(fitted(3, 1, 2), (2, 1));
    assert_eq!(fitted(100, 50, 200), (200, 100));
}

#[test]
fn fit_keeps_one_pixel_short_side() {
    assert_eq!(fitted(1000, 1, 10), (10, 1));
    assert_eq!(fitted(1, 1000, 10), (1, 10));
    assert_eq!(fitted(3, 2, 1), (1, 1));
}

#[test]
fn fit_aspect_within_rounding() {
    let (w, h) = (192u32, 108u32);
    for size in [128usize, 64, 33, 17] {
        let (fw, fh) = fitted(w, h, size);
        assert!(fw == size || fh == size);
        assert!(fw <= size && fh <= size);
        let skew = (fw as i64 * h as i64 - fh as i64 * w as i64).abs();
        assert!(2 * skew <= w as i64);
    }
}

#[test]
fn resize_buffer_matches_dimensions() {
    let data = solid_png(100, 50, [10, 20, 30]);
    let (bytes, w, h) = resize(&data, 80).unwrap();
    assert_eq!((w, h), (80, 40));
    assert_eq!(bytes.len(), w * h * 3);
}

#[test]
fn resize_converts_to_rgb() {
    let img = RgbaImage::from_pixel(4, 2, Rgba([200, 100, 50, 128]));
    let data = png_bytes(DynamicImage::ImageRgba8(img));
    let (bytes, w, h) = resize(&data, 8).unwrap();
    assert_eq!((w, h), (8, 4));
    assert_eq!(bytes.len(), 8 * 4 * 3);
    for px in bytes.chunks(3) {
        assert_eq!(px, &[200, 100, 50]);
    }
}

#[test]
fn resize_keeps_source_pixels_when_size_matches() {
    let data = solid_png(30, 15, [1, 2, 3]);
    let (bytes, w, h) = resize(&data, 30).unwrap();
    assert_eq!((w, h), (30, 15));
    assert!(bytes.chunks(3).all(|px| px == [1, 2, 3]));
}

#[test]
fn resize_rejects_corrupt_data() {
    let r = resize(&[0u8, 1, 2, 3, 4, 5, 6, 7], 64);
    assert!(matches!(r, Err(Error::Decode(_))));
    let mut truncated = solid_png(20, 20, [9, 9, 9]);
    truncated.truncate(truncated.len() / 2);
    assert!(matches!(resize(&truncated, 10), Err(Error::Decode(_))));
}

#[test]
fn compress_emits_jpeg_markers() {
    let data = vec![128u8; 4 * 3 * 3];
    let out = compress(data, 4, 3).unwrap();
    assert!(is_jpeg(&out));
}

#[test]
fn compress_rejects_short_buffer() {
    let r = compress(vec![0u8; 10 * 10 * 3 - 1], 10, 10);
    assert_eq!(
        r,
        Err(Error::SizeMismatch { width: 10, height: 10, len: 299 })
    );
}

#[test]
fn compress_rejects_long_buffer() {
    let r = compress(vec![0u8; 13], 2, 2);
    assert_eq!(r, Err(Error::SizeMismatch { width: 2, height: 2, len: 13 }));
}

#[test]
fn compress_rejects_overflowing_size() {
    let r = compress(vec![0u8; 3], usize::MAX, 2);
    assert_eq!(r, Err(Error::SizeMismatch { width: usize::MAX, height: 2, len: 3 }));
}

#[test]
fn compress_rejects_empty_and_oversized_images() {
    assert!(matches!(compress(Vec::new(), 0, 5), Err(Error::Encode(_))));
    assert!(matches!(compress(Vec::new(), 5, 0), Err(Error::Encode(_))));
    let wide = MAX_EDGE + 1;
    assert!(matches!(compress(vec![0u8; wide * 3], wide, 1), Err(Error::Encode(_))));
}

#[test]
fn compress_writes_baseline_frame() {
    let jpeg = compress(vec![90u8; 8 * 8 * 3], 8, 8).unwrap();
    let has = |marker: u8| jpeg.windows(2).any(|w| w == [0xFF, marker]);
    assert!(has(0xC0));
    assert!(!has(0xC2));
}

#[test]
fn compress_quality_is_seventy() {
    assert_eq!(QUALITY, 70);
}

#[test]
fn round_trip_keeps_dimensions() {
    let mut img = RgbImage::new(300, 200);
    for (x, y, px) in img.enumerate_pixels_mut() {
        *px = Rgb([(x % 256) as u8, (y % 256) as u8, ((x + y) % 256) as u8]);
    }
    let data = png_bytes(DynamicImage::ImageRgb8(img));
    let (bytes, w, h) = resize(&data, 640).unwrap();
    assert_eq!((w, h), (640, 427));
    let jpeg = compress(bytes, w, h).unwrap();
    let decoded = image::load_from_memory(&jpeg).unwrap();
    assert_eq!((decoded.width() as usize, decoded.height() as usize), (w, h));
}

#[test]
fn target_size_one_gives_single_pixel() {
    let data = solid_png(100, 50, [255, 0, 0]);
    let (bytes, w, h) = resize(&data, 1).unwrap();
    assert_eq!((w, h), (1, 1));
    assert_eq!(bytes.len(), 3);
    let jpeg = compress(bytes, w, h).unwrap();
    assert!(is_jpeg(&jpeg));
    let decoded = image::load_from_memory(&jpeg).unwrap();
    assert_eq!((decoded.width(), decoded.height()), (1, 1));
}

#[test]
fn two_sizes_of_one_png() {
    let data = solid_png(100, 50, [0, 128, 255]);
    let mut dims = Vec::new();
    for size in [80usize, 40] {
        let (bytes, w, h) = resize(&data, size).unwrap();
        let jpeg = compress(bytes, w, h).unwrap();
        assert!(is_jpeg(&jpeg));
        let decoded = image::load_from_memory(&jpeg).unwrap();
        dims.push((decoded.width(), decoded.height()));
    }
    assert_eq!(dims, vec![(80, 40), (40, 20)]);
}

#[test]
fn decoded_jpeg_keeps_colour() {
    let bytes = [200u8, 40, 40].repeat(16 * 16);
    let jpeg = compress(bytes, 16, 16).unwrap();
    let decoded = image::load_from_memory(&jpeg).unwrap().to_rgb8();
    let px = decoded.get_pixel(8, 8);
    assert!((px[0] as i32 - 200).abs() < 12);
    assert!((px[1] as i32 - 40).abs() < 12);
}

#[test]
fn resize_is_a_function_of_the_bytes() {
    let mut img = RgbImage::new(40, 30);
    for (x, y, px) in img.enumerate_pixels_mut() {
        *px = Rgb([(x * 6) as u8, (y * 8) as u8, 77]);
    }
    let data = png_bytes(DynamicImage::ImageRgb8(img));
    let first = resize(&data, 25).unwrap();
    let second = resize(&data, 25).unwrap();
    assert_eq!(first, second);
    assert_eq!((first.1, first.2), (25, 19));
    let jpeg_a = compress(first.0, first.1, first.2).unwrap();
    let jpeg_b = compress(second.0, second.1, second.2).unwrap();
    assert_eq!(jpeg_a, jpeg_b);
}
