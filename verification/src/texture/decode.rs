//! Decoding of encoded image files into RGBA pixels.
use vstd::prelude::*;

verus! {

/// The RGBA image that the `image` crate decodes from an encoded file:
/// its width, its height and its pixels, four bytes each, row after row;
/// `None` when the bytes are not an image it can decode.
pub uninterp spec fn decoded_rgba8(bytes: Seq<u8>) -> Option<(u32, u32, Seq<u8>)>;

/// Decodes `bytes` with `image::load_from_memory`, converts the image with
/// `DynamicImage::to_rgba8` and takes its size and its pixel buffer.
///
/// Trusted: the result is the image the crate decodes from these bytes, and
/// an RGBA buffer holds four bytes for each of its `width * height` pixels,
/// as `ImageBuffer::new` allocates it. What decoding yields is not stated.
/// `load_from_memory` decodes under the crate's default limits, which refuse
/// an image of more than 512 MiB, so the RGBA copy stays within four times
/// that and its allocation does not overflow.
#[verifier::external_body]
pub(crate) fn decode_rgba8(bytes: &[u8]) -> (r: Option<(u32, u32, Vec<u8>)>)
    ensures
        match r {
            Some((w, h, p)) => decoded_rgba8(bytes@) == Some((w, h, p@)) && p@.len() == 4 * w * h,
            None => decoded_rgba8(bytes@) is None,
        },
{
    match image::load_from_memory(bytes) {
        Ok(img) => {
            let rgba = img.to_rgba8();
            let (width, height) = rgba.dimensions();
            Some((width, height, rgba.into_raw()))
        },
        Err(_) => None,
    }
}

} // verus!
