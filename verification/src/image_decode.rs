//! Decoding encoded image files into RGBA pixels, done by the `image` crate.
use vstd::prelude::*;

verus! {

/// The `image` crate's error type, carried through unchanged.
#[verifier::external_type_specification]
#[verifier::external_body]
pub struct ExImageError(image::ImageError);

/// Most pixels a decoded image can have: the `image` crate's default
/// allocation limit, 512 MiB, at one byte per pixel.
pub const MAX_DECODED_PIXELS: u64 = 0x2000_0000;

/// What `image::load_from_memory` followed by `DynamicImage::to_rgba8` makes of
/// an encoded file: its width, its height and its RGBA bytes, or `None` where
/// the crate reports an error.
pub uninterp spec fn decoded_rgba(encoded: Seq<u8>) -> Option<(u32, u32, Seq<u8>)>;

/// Calls `image::load_from_memory` on `encoded` and converts the decoded image
/// with `DynamicImage::to_rgba8`, handing back its dimensions and raw bytes.
/// The contract claims that the outcome is the crate's fixed answer for these
/// bytes (`decoded_rgba`); that the RGBA data holds exactly four bytes per
/// pixel, as the buffer that `to_rgba8` builds does; and that the image has at
/// most `MAX_DECODED_PIXELS` pixels, since decoding refuses an image whose
/// pixels, at one byte or more each, exceed the default allocation limit of
/// 512 MiB. What the answer is for a given file is left to the crate.
#[verifier::external_body]
pub fn decode_rgba(encoded: &[u8]) -> (decoded: Result<(u32, u32, Vec<u8>), image::ImageError>)
    ensures
        decoded is Ok <==> decoded_rgba(encoded@) is Some,
        decoded matches Ok((w, h, bytes)) ==> decoded_rgba(encoded@) == Some((w, h, bytes@)),
        decoded matches Ok((w, h, bytes)) ==> bytes@.len() == 4 * w * h,
        decoded matches Ok((w, h, bytes)) ==> w * h <= MAX_DECODED_PIXELS,
{
    match image::load_from_memory(encoded) {
        Ok(image) => {
            let rgba = image.to_rgba8();
            let (w, h) = rgba.dimensions();
            Ok((w, h, rgba.into_raw()))
        },
        Err(err) => Err(err),
    }
}

} // verus!
