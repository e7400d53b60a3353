use crate::error::Error;
use image::imageops::FilterType;
use image::DynamicImage;
use image::GenericImageView;
use vstd::prelude::*;

verus! {

#[verifier::external_type_specification]
#[verifier::external_body]
pub struct ExDynamicImage(DynamicImage);

/// Whether the bytes decode to an image.
pub uninterp spec fn decodes(data: Seq<u8>) -> bool;

/// The image that the bytes decode to.
pub uninterp spec fn decoded_image(data: Seq<u8>) -> DynamicImage;

/// The image scaled with the Lanczos filter to fit a `size x size` box.
pub uninterp spec fn fitted_image(img: DynamicImage, size: nat) -> DynamicImage;

/// Width and height, in pixels, of an image.
pub uninterp spec fn pixel_size(img: DynamicImage) -> (nat, nat);

/// The pixels of an image as packed 8-bit RGB, row after row.
pub uninterp spec fn rgb_pixels(img: DynamicImage) -> Seq<u8>;

/// Whether `(fit_width, fit_height)` is a box fit of `width x height` into a
/// `size x size` box: with `m` the longer source side, each side is within
/// one pixel of the source side scaled by `size / m`, and none is empty.
pub open spec fn box_fit(width: nat, height: nat, size: nat, fit_width: nat, fit_height: nat) -> bool {
    let m = vstd::math::max(width as int, height as int);
    &&& fit_width >= 1
    &&& fit_height >= 1
    &&& vstd::math::abs(fit_width * m - width * size) < m
    &&& vstd::math::abs(fit_height * m - height * size) < m
}

/// A box fit keeps the image inside the box and fills it along the longer
/// side: no side exceeds `size`, and the longer source side becomes `size`.
pub proof fn lemma_box_fit_fills_box(width: nat, height: nat, size: nat, fit_width: nat, fit_height: nat)
    requires
        width >= 1,
        height >= 1,
        box_fit(width, height, size, fit_width, fit_height),
    ensures
        fit_width <= size,
        fit_height <= size,
        width >= height ==> fit_width == size,
        height >= width ==> fit_height == size,
{
    let m = vstd::math::max(width as int, height as int);
    let fw = fit_width as int;
    let fh = fit_height as int;
    let w = width as int;
    let h = height as int;
    let s = size as int;
    assert(fw * m < w * s + m && fh * m < h * s + m);
    assert(w <= m && h <= m && m >= 1);
    assert(fw <= s) by (nonlinear_arith)
        requires
            fw * m < w * s + m,
            w <= m,
            m >= 1,
            s >= 0,
    ;
    assert(fh <= s) by (nonlinear_arith)
        requires
            fh * m < h * s + m,
            h <= m,
            m >= 1,
            s >= 0,
    ;
    if w >= h {
        assert(m == w);
        assert(fw * m > w * s - m);
        assert(fw >= s) by (nonlinear_arith)
            requires
                fw * m > m * s - m,
                m >= 1,
        ;
    }
    if h >= w {
        assert(m == h);
        assert(fh * m > h * s - m);
        assert(fh >= s) by (nonlinear_arith)
            requires
                fh * m > m * s - m,
                m >= 1,
        ;
    }
}

/// Whether the buffers that scaling a `width`-wide image into a `size x size`
/// box allocates (up to four channels of four bytes per pixel) stay well
/// within the address space.
pub open spec fn fits_in_memory(width: nat, size: nat) -> bool {
    (width + size) * size * 16 <= usize::MAX / 2
}

/// Relies on `image::load_from_memory`: it guesses the format from the bytes
/// and decodes them under the default limits, so whether it succeeds, and
/// what it returns, depend on the bytes alone.
#[verifier::external_body]
fn load_image(data: &[u8]) -> (r: Result<DynamicImage, String>)
    ensures
        r is Ok <==> decodes(data@),
        r is Ok ==> r->Ok_0 == decoded_image(data@),
{
    match image::load_from_memory(data) {
        Ok(img) => Ok(img),
        Err(e) => Err(e.to_string()),
    }
}

/// Relies on `GenericImageView::dimensions` of `DynamicImage`: the width and
/// height of the underlying buffer.
#[verifier::external_body]
fn image_size(img: &DynamicImage) -> (r: (u32, u32))
    ensures
        (r.0 as nat, r.1 as nat) == pixel_size(*img),
{
    img.dimensions()
}

/// Relies on `DynamicImage::resize` with the Lanczos filter of three lobes:
/// `resize_dimensions` takes the ratio `size / max(width, height)`, scales
/// both sides by it, rounds each to the nearest integer and raises it to at
/// least one pixel, so each side is within one pixel of the scaled side.
/// `resize_exact` then resamples to that size. The result depends on the
/// image and the size alone.
#[verifier::external_body]
fn resize_lanczos3(img: &DynamicImage, size: u32) -> (r: DynamicImage)
    requires
        pixel_size(*img).0 >= 1,
        pixel_size(*img).1 >= 1,
        size >= 1,
        fits_in_memory(pixel_size(*img).0, size as nat),
    ensures
        r == fitted_image(*img, size as nat),
        box_fit(pixel_size(*img).0, pixel_size(*img).1, size as nat, pixel_size(r).0, pixel_size(r).1),
{
    img.resize(size, size, FilterType::Lanczos3)
}

/// Relies on `DynamicImage::to_rgb8` and `ImageBuffer::into_raw`: the image
/// converted to 8-bit RGB (alpha dropped), as a freshly allocated buffer of
/// exactly three bytes per pixel, row after row.
#[verifier::external_body]
fn rgb_bytes(img: &DynamicImage) -> (r: Vec<u8>)
    requires
        pixel_size(*img).0 * pixel_size(*img).1 * 4 <= usize::MAX,
    ensures
        r@ == rgb_pixels(*img),
        r@.len() == pixel_size(*img).0 * pixel_size(*img).1 * 3,
{
    img.to_rgb8().into_raw()
}

/// Whether [`fits_in_memory`] holds, computed without overflow.
fn check_fits_in_memory(width: u32, size: u32) -> (r: bool)
    ensures
        r == fits_in_memory(width as nat, size as nat),
{
    let sum: u64 = width as u64 + size as u64;
    match sum.checked_mul(size as u64) {
        Some(area) => match area.checked_mul(16) {
            Some(bytes) => (bytes as u128) <= (usize::MAX / 2) as u128,
            None => {
                proof {
                    assert(area * 16 > u64::MAX);
                }
                false
            },
        },
        None => {
            proof {
                assert((width + size) * size * 16 >= (width + size) * size) by (nonlinear_arith);
            }
            false
        },
    }
}

/// Decodes `data` (a PNG or JPEG file's bytes), scales the image with the
/// Lanczos filter to fit a `target_size x target_size` box with its aspect
/// ratio kept, and returns its pixels as packed 8-bit RGB rows together with
/// the final width and height. The buffer always holds `width * height * 3`
/// bytes.
///
/// Succeeds exactly when the bytes decode to an image with at least one
/// pixel whose scaling buffers fit in memory; otherwise fails with `Decode`.
pub fn resize(data: &[u8], target_size: usize) -> (r: Result<(Vec<u8>, usize, usize), Error>)
    requires
        1 <= target_size <= u32::MAX,
    ensures
        r is Ok <==> {
            &&& decodes(data@)
            &&& pixel_size(decoded_image(data@)).0 >= 1
            &&& pixel_size(decoded_image(data@)).1 >= 1
            &&& fits_in_memory(pixel_size(decoded_image(data@)).0, target_size as nat)
        },
        match r {
            Ok((bytes, width, height)) => {
                let source = decoded_image(data@);
                let fitted = fitted_image(source, target_size as nat);
                &&& bytes@ == rgb_pixels(fitted)
                &&& (width as nat, height as nat) == pixel_size(fitted)
                &&& box_fit(
                    pixel_size(source).0,
                    pixel_size(source).1,
                    target_size as nat,
                    width as nat,
                    height as nat,
                )
                &&& width <= target_size
                &&& height <= target_size
                &&& pixel_size(source).0 >= pixel_size(source).1 ==> width == target_size
                &&& pixel_size(source).1 >= pixel_size(source).0 ==> height == target_size
                &&& bytes@.len() == width * height * 3
            },
            Err(e) => e is Decode,
        },
{
    let img = match load_image(data) {
        Ok(img) => img,
        Err(msg) => {
            return Err(Error::Decode(msg));
        },
    };
    let (width, height) = image_size(&img);
    if width == 0 || height == 0 {
        return Err(Error::Decode("the image holds no pixels".to_string()));
    }
    let size = target_size as u32;
    if !check_fits_in_memory(width, size) {
        return Err(Error::Decode("the image is too large for this machine".to_string()));
    }
    let resized = resize_lanczos3(&img, size);
    let (fit_width, fit_height) = image_size(&resized);
    proof {
        lemma_box_fit_fills_box(
            width as nat,
            height as nat,
            size as nat,
            fit_width as nat,
            fit_height as nat,
        );
        assert(fit_width * fit_height * 4 <= usize::MAX) by (nonlinear_arith)
            requires
                fit_width <= size,
                fit_height <= size,
                (width + size) * size * 16 <= usize::MAX / 2,
        ;
    }
    let bytes = rgb_bytes(&resized);
    Ok((bytes, fit_width as usize, fit_height as usize))
}

} // verus!
