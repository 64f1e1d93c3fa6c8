//! The PNG encoding step behind bitmap embedding. The encoder itself comes
//! from the image crate; everything around it — the dimension check, the
//! base64 text and the emitted command — is verified in this crate.

use vstd::prelude::*;

verus! {

/// The PNG byte stream that the image crate's encoder produces for an RGB8
/// pixel buffer of the given dimensions; a function of its arguments alone.
pub uninterp spec fn png_of(src: Seq<u8>, w: u32, h: u32) -> Seq<u8>;

#[verifier::external_type_specification]
#[verifier::external_body]
pub struct ExImageError(image::ImageError);

/// Why a bitmap draw call failed.
#[derive(Clone, Copy, PartialEq, Eq, Structural, Debug)]
pub enum BitmapError {
    /// The pixel buffer does not hold exactly 3 bytes per pixel.
    InvalidDimensions,
    /// The PNG encoder refused the buffer.
    Encoding,
}

/// Relies on image's `PngEncoder::write_image` with the RGB8 color type: it
/// writes the PNG encoding of the pixel buffer into a fresh in-memory
/// buffer. It demands exactly 3 * w * h bytes of pixel data (anything else
/// makes it panic). With that length given and the sink in memory, the one
/// failure left in the encoder is a zero dimension, which its header
/// validation rejects; every other step writes into the buffer and cannot
/// fail.
#[verifier::external_body]
pub(crate) fn encode_png(src: &Vec<u8>, w: u32, h: u32) -> (r: Result<Vec<u8>, image::ImageError>)
    requires
        src@.len() == 3 * (w as nat) * (h as nat),
    ensures
        r is Ok <==> (w > 0 && h > 0),
        r is Ok ==> r->Ok_0@ == png_of(src@, w, h),
{
    let mut data: Vec<u8> = Vec::new();
    let encoder = image::codecs::png::PngEncoder::new(&mut data);
    match image::ImageEncoder::write_image(encoder, src, w, h, image::ExtendedColorType::Rgb8) {
        Ok(()) => Ok(data),
        Err(e) => Err(e),
    }
}

} // verus!
