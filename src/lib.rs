//! Resize raster images into a bounding box and re-encode them as baseline JPEG.

mod compress;
mod error;
mod resize;

pub use compress::{compress, is_jpeg_stream, jpeg_of, MAX_EDGE, QUALITY};
pub use error::Error;
pub use resize::{
    box_fit, decoded_image, decodes, fits_in_memory, fitted_image, lemma_box_fit_fills_box, pixel_size,
    resize, rgb_pixels,
};
