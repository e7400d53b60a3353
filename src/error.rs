use vstd::prelude::*;

verus! {

/// Why a resize or an encode failed.
#[derive(Debug, PartialEq, Eq)]
pub enum Error {
    /// The bytes could not be decoded as an image, or the image holds no pixels.
    Decode(String),
    /// The raster buffer is not `width * height * 3` bytes long.
    SizeMismatch { width: usize, height: usize, len: usize },
    /// The JPEG compressor refused the dimensions or failed while writing.
    Encode(String),
}

} // verus!
