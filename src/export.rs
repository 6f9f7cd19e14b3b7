//! RGBA images of the `image` crate, built from packed frames.
use vstd::prelude::*;

verus! {

/// An RGBA image of the `image` crate, held whole: `image` is the image itself.
#[verifier::external_body]
pub struct RgbaFrame {
    pub image: image::RgbaImage,
}

/// The raw bytes that an image holds, four per pixel, row by row.
pub uninterp spec fn frame_bytes(f: RgbaFrame) -> Seq<u8>;

/// The width and height of an image.
pub uninterp spec fn frame_dimensions(f: RgbaFrame) -> (u32, u32);

/// Relies on image's `ImageBuffer::from_raw`: an image exactly when
/// `4·width·height` bytes fit in the buffer (and that product in `usize`),
/// keeping the buffer and the dimensions as given.
#[verifier::external_body]
pub(crate) fn rgba_frame_from_raw(width: u32, height: u32, buf: Vec<u8>) -> (r: Option<RgbaFrame>)
    ensures
        r is Some <==> 4 * width * height <= buf@.len(),
        r matches Some(f) ==> frame_bytes(f) == buf@ && frame_dimensions(f) == (width, height),
{
    image::RgbaImage::from_raw(width, height, buf).map(|image| RgbaFrame { image })
}

} // verus!
