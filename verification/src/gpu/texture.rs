use vstd::prelude::*;

use crate::error::HobbyError;

verus! {

/// A decoded texture image: its size and its pixels, four bytes (red, green, blue,
/// alpha) per pixel, row by row.
pub struct RgbaImage {
    pub width: u32,
    pub height: u32,
    pub pixels: Vec<u8>,
}

/// What decoding the bytes as a JPEG image gives, converted to RGBA: the width, the
/// height and the pixel bytes; nothing when the bytes cannot be decoded.
pub uninterp spec fn decoded_jpeg(bytes: Seq<u8>) -> Option<(u32, u32, Seq<u8>)>;

/// Calls the `image` crate's `load_from_memory_with_format` on the bytes as a JPEG
/// image, then `to_rgba` on what it decoded. The contract claims that the result is a
/// function of the bytes (named `decoded_jpeg`), and that the RGBA buffer `to_rgba`
/// makes holds four bytes per pixel; which pixels the decoder produces is not stated.
#[verifier::external_body]
fn decode_jpeg_rgba(bytes: &[u8]) -> (r: Option<(u32, u32, Vec<u8>)>)
    ensures
        match decoded_jpeg(bytes@) {
            Some((w, h, p)) => r matches Some((rw, rh, rp)) && rw == w && rh == h && rp@ == p
                && p.len() == 4 * w * h,
            None => r is None,
        },
{
    match image::load_from_memory_with_format(bytes, image::ImageFormat::JPEG) {
        Ok(img) => {
            let rgba = img.to_rgba();
            let (width, height) = rgba.dimensions();
            Some((width, height, rgba.into_raw()))
        },
        Err(_) => None,
    }
}

/// Decodes the JPEG bytes of a texture into an RGBA image; bytes that do not decode
/// are refused.
pub fn texture_image_from_bytes(bytes: &Vec<u8>) -> (r: Result<RgbaImage, HobbyError>)
    ensures
        match decoded_jpeg(bytes@) {
            Some((w, h, p)) => r matches Ok(img) && img.width == w && img.height == h
                && img.pixels@ == p && img.pixels@.len() == 4 * img.width * img.height,
            None => r == Err::<RgbaImage, HobbyError>(HobbyError::InvalidTextureImage),
        },
{
    match decode_jpeg_rgba(bytes.as_slice()) {
        Some((width, height, pixels)) => Ok(RgbaImage { width, height, pixels }),
        None => Err(HobbyError::InvalidTextureImage),
    }
}

} // verus!
