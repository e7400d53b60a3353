use crate::error::Error;
use mozjpeg::compress::CompressStarted;
use mozjpeg::{ColorSpace, Compress, ScanMode};
use vstd::prelude::*;
use vstd::slice::slice_subrange;

verus! {

/// JPEG quality on the 0 to 100 scale used for every image.
pub const QUALITY: u8 = 70;

/// The longest side, in pixels, that a JPEG image can have.
pub const MAX_EDGE: usize = 65500;

#[verifier::external_type_specification]
#[verifier::external_body]
pub struct ExCompress(Compress);

#[verifier::external_type_specification]
#[verifier::external_body]
#[verifier::reject_recursive_types(W)]
pub struct ExCompressStarted<W>(CompressStarted<W>);

/// Input width and height that a compressor has been given.
pub uninterp spec fn configured_size(c: Compress) -> (nat, nat);

/// Input width and height of a started compressor.
pub uninterp spec fn started_size(c: CompressStarted<Vec<u8>>) -> (nat, nat);

/// The quality that was last set on a compressor.
pub uninterp spec fn quality_of(c: Compress) -> nat;

/// Whether a compressor puts the DC coefficients of all components in one
/// scan.
pub uninterp spec fn dc_scans_together(c: Compress) -> bool;

/// Whether a compressor's scan search is off and its scan script cleared, so
/// that it writes a baseline stream with one sequential scan.
pub uninterp spec fn baseline_of(c: Compress) -> bool;

/// The quality that a started compressor was set up with.
pub uninterp spec fn started_quality(c: CompressStarted<Vec<u8>>) -> nat;

/// The pixel bytes that a started compressor has been handed, in order.
pub uninterp spec fn fed_pixels(c: CompressStarted<Vec<u8>>) -> Seq<u8>;

/// The baseline JPEG stream, with all components in one scan at the given
/// quality, of `width x height` packed 8-bit RGB pixels.
pub uninterp spec fn jpeg_of(pixels: Seq<u8>, width: nat, height: nat, quality: nat) -> Seq<u8>;

/// Whether `bytes` opens with the JPEG start-of-image marker and closes with
/// the end-of-image marker.
pub open spec fn is_jpeg_stream(bytes: Seq<u8>) -> bool {
    &&& bytes.len() >= 4
    &&& bytes[0] == 0xFF
    &&& bytes[1] == 0xD8
    &&& bytes[bytes.len() - 2] == 0xFF
    &&& bytes[bytes.len() - 1] == 0xD9
}

/// Relies on `Compress::new(ColorSpace::JCS_RGB)`: a compressor for packed
/// 8-bit RGB input with libjpeg's defaults.
#[verifier::external_body]
fn rgb_compressor() -> (r: Compress) {
    Compress::new(ColorSpace::JCS_RGB)
}

/// Relies on `Compress::set_scan_optimization_mode` with
/// `ScanMode::AllComponentsTogether` (mode 0): the DC coefficients of all
/// components go in one scan. It runs `jpeg_set_defaults` again, which leaves
/// that mode at 0 and the image size alone, but resets the quality and, under
/// MozJPEG's default profile, installs a progressive scan script.
#[verifier::external_body]
fn set_single_scan(c: &mut Compress)
    ensures
        configured_size(*final(c)) == configured_size(*old(c)),
        dc_scans_together(*final(c)),
{
    c.set_scan_optimization_mode(ScanMode::AllComponentsTogether);
}

/// Relies on `Compress::set_optimize_scans(false)`: it turns MozJPEG's scan
/// search off and clears the progressive scan script that its default
/// profile installs, so the stream is baseline with one sequential scan.
#[verifier::external_body]
fn set_baseline(c: &mut Compress)
    ensures
        configured_size(*final(c)) == configured_size(*old(c)),
        quality_of(*final(c)) == quality_of(*old(c)),
        dc_scans_together(*final(c)) == dc_scans_together(*old(c)),
        baseline_of(*final(c)),
{
    c.set_optimize_scans(false);
}

/// Relies on `Compress::set_quality`: `jpeg_set_quality` sets the
/// quantisation tables for the given quality and touches neither the image
/// size nor the scan setup.
#[verifier::external_body]
fn set_quality(c: &mut Compress, quality: u8)
    ensures
        configured_size(*final(c)) == configured_size(*old(c)),
        quality_of(*final(c)) == quality as nat,
        dc_scans_together(*final(c)) == dc_scans_together(*old(c)),
        baseline_of(*final(c)) == baseline_of(*old(c)),
{
    c.set_quality(quality.into());
}

/// Relies on `Compress::set_size`: it records the input width and height and
/// nothing else.
#[verifier::external_body]
fn set_size(c: &mut Compress, width: usize, height: usize)
    requires
        width <= MAX_EDGE,
        height <= MAX_EDGE,
    ensures
        configured_size(*final(c)) == (width as nat, height as nat),
        quality_of(*final(c)) == quality_of(*old(c)),
        dc_scans_together(*final(c)) == dc_scans_together(*old(c)),
        baseline_of(*final(c)) == baseline_of(*old(c)),
{
    c.set_size(width, height);
}

/// Relies on `Compress::start_compress` writing into a `Vec`: libjpeg panics
/// (through mozjpeg's unwinding error handler) on an empty image or on a side
/// longer than 65500 pixels, so those sizes are left out. It fails only when
/// no component has a sampling factor of one, which libjpeg's RGB defaults
/// rule out.
#[verifier::external_body]
fn start(c: Compress) -> (r: Result<CompressStarted<Vec<u8>>, String>)
    requires
        1 <= configured_size(c).0 <= MAX_EDGE,
        1 <= configured_size(c).1 <= MAX_EDGE,
        dc_scans_together(c),
        baseline_of(c),
    ensures
        r is Ok,
        started_size(r->Ok_0) == configured_size(c),
        started_quality(r->Ok_0) == quality_of(c),
        fed_pixels(r->Ok_0) == Seq::<u8>::empty(),
{
    match c.start_compress(Vec::new()) {
        Ok(s) => Ok(s),
        Err(e) => Err(e.to_string()),
    }
}

/// Relies on `CompressStarted::write_scanlines` given one whole row of
/// `width * 3` bytes: libjpeg takes the row, and it fails only when libjpeg
/// takes none, which a `Vec` destination never causes (its
/// `empty_output_buffer` always returns 1).
#[verifier::external_body]
fn write_row(c: &mut CompressStarted<Vec<u8>>, row: &[u8]) -> (r: Result<(), String>)
    requires
        started_size(*old(c)).0 >= 1,
        row@.len() == started_size(*old(c)).0 * 3,
        fed_pixels(*old(c)).len() < started_size(*old(c)).0 * started_size(*old(c)).1 * 3,
    ensures
        r is Ok,
        started_size(*final(c)) == started_size(*old(c)),
        started_quality(*final(c)) == started_quality(*old(c)),
        fed_pixels(*final(c)) == fed_pixels(*old(c)) + row@,
{
    match c.write_scanlines(row) {
        Ok(()) => Ok(()),
        Err(e) => Err(e.to_string()),
    }
}

/// Relies on `CompressStarted::finish`: `jpeg_finish_compress` panics unless
/// every row has been written, then writes the end-of-image marker after the
/// stream that `jpeg_start_compress` (through `jinit_compress_master`) opened
/// with the start-of-image marker,
/// and the `Vec` given at the start is handed back, always as `Ok`, with the
/// whole stream.
#[verifier::external_body]
fn finish(c: CompressStarted<Vec<u8>>) -> (r: Result<Vec<u8>, String>)
    requires
        fed_pixels(c).len() == started_size(c).0 * started_size(c).1 * 3,
    ensures
        r is Ok,
        r->Ok_0@ == jpeg_of(fed_pixels(c), started_size(c).0, started_size(c).1, started_quality(c)),
        is_jpeg_stream(r->Ok_0@),
{
    match c.finish() {
        Ok(bytes) => Ok(bytes),
        Err(e) => Err(e.to_string()),
    }
}

/// Whether `len` is exactly `width * height * 3`, computed without overflow.
fn is_packed_rgb_len(len: usize, width: usize, height: usize) -> (r: bool)
    ensures
        r == (len == width * height * 3),
{
    match width.checked_mul(height) {
        Some(pixels) => match pixels.checked_mul(3) {
            Some(bytes) => bytes == len,
            None => false,
        },
        None => {
            proof {
                assert(width * height * 3 >= width * height) by (nonlinear_arith);
            }
            false
        },
    }
}

/// Encodes a raster of packed 8-bit RGB rows as a baseline JPEG of quality
/// [`QUALITY`] with all components in one scan, handing the compressor one
/// row at a time.
///
/// Fails with `SizeMismatch` exactly when `image_data` is not
/// `width * height * 3` bytes long, and with `Encode` exactly when, the
/// length being right, a side is zero or longer than [`MAX_EDGE`]. Otherwise
/// it returns the complete JPEG stream of the pixels.
pub fn compress(image_data: Vec<u8>, width: usize, height: usize) -> (r: Result<Vec<u8>, Error>)
    ensures
        (image_data@.len() != width * height * 3) <==> r == Err::<Vec<u8>, Error>(
            Error::SizeMismatch { width, height, len: image_data.len() },
        ),
        image_data@.len() == width * height * 3 && !(1 <= width <= MAX_EDGE && 1 <= height
            <= MAX_EDGE) ==> r is Err && r->Err_0 is Encode,
        image_data@.len() == width * height * 3 && 1 <= width <= MAX_EDGE && 1 <= height
            <= MAX_EDGE ==> r is Ok,
        r is Ok ==> r->Ok_0@ == jpeg_of(image_data@, width as nat, height as nat, QUALITY as nat),
        r is Ok ==> is_jpeg_stream(r->Ok_0@),
{
    if !is_packed_rgb_len(image_data.len(), width, height) {
        return Err(Error::SizeMismatch { width, height, len: image_data.len() });
    }
    if width == 0 || height == 0 || width > MAX_EDGE || height > MAX_EDGE {
        return Err(Error::Encode("image sides must be between 1 and 65500 pixels".to_string()));
    }
    let mut comp = rgb_compressor();
    set_single_scan(&mut comp);
    set_baseline(&mut comp);
    set_quality(&mut comp, QUALITY);
    set_size(&mut comp, width, height);
    let mut started = match start(comp) {
        Ok(s) => s,
        Err(msg) => {
            return Err(Error::Encode(msg));
        },
    };
    let total: usize = image_data.len();
    let row_len: usize = width * 3;
    let mut line: usize = 0;
    while line < height
        invariant
            line <= height,
            1 <= width <= MAX_EDGE,
            row_len == width * 3,
            image_data@.len() == width * height * 3,
            total == image_data@.len(),
            started_size(started) == (width as nat, height as nat),
            started_quality(started) == QUALITY as nat,
            line * row_len <= total,
            fed_pixels(started) == image_data@.subrange(0, line * row_len as int),
        decreases height - line,
    {
        proof {
            assert((line + 1) * row_len <= height * row_len) by (nonlinear_arith)
                requires
                    line < height,
            ;
            assert(height * row_len == width * height * 3) by (nonlinear_arith)
                requires
                    row_len == width * 3,
            ;
            assert((line + 1) * row_len == line * row_len + row_len) by (nonlinear_arith);
            assert(line * row_len + row_len <= total);
        }
        let begin: usize = line * row_len;
        let row = slice_subrange(image_data.as_slice(), begin, begin + row_len);
        match write_row(&mut started, row) {
            Ok(()) => {},
            Err(msg) => {
                return Err(Error::Encode(msg));
            },
        }
        proof {
            assert(fed_pixels(started) =~= image_data@.subrange(0, (line + 1) * row_len as int));
        }
        line = line + 1;
    }
    proof {
        assert(line == height);
        assert(height * row_len == width * height * 3) by (nonlinear_arith)
            requires
                row_len == width * 3,
        ;
        assert(fed_pixels(started) =~= image_data@);
    }
    match finish(started) {
        Ok(bytes) => Ok(bytes),
        Err(msg) => Err(Error::Encode(msg)),
    }
}

} // verus!
