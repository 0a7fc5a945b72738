//! Decoding texture images from their file bytes. Uploading the pixels to
//! the graphics device is done by the application.
use vstd::prelude::*;
use image::GenericImageView;
use crate::text::concat;

verus! {

/// The image that `bytes` decode to, as (width, height, RGBA8 pixels row by
/// row), when their format is recognised from their leading bytes by
/// `image::guess_format` and they are decoded in that format by
/// `image::load_from_memory_with_format`; when either step fails, the text
/// of its error.
pub uninterp spec fn decoded_image(bytes: Seq<u8>) -> Result<(u32, u32, Seq<u8>), Seq<char>>;

/// The image `bytes` decode to.
///
/// Trusted: calls `image::guess_format`, which recognises the format from
/// the crate's built-in table of leading bytes, then
/// `image::load_from_memory_with_format`, which decodes in that built-in
/// format under the default limits; then reads the image's dimensions and
/// converts its pixels to RGBA8 (`to_rgba8`). Neither call consults the
/// format hooks that can be registered at run time, so for a given build the
/// result, error text included, depends on the bytes alone; it is named
/// [`decoded_image`].
#[verifier::external_body]
fn image_from_memory(bytes: &[u8]) -> (r: Result<(u32, u32, Vec<u8>), String>)
    ensures
        match r {
            Ok((w, h, px)) => decoded_image(bytes@) == Ok::<(u32, u32, Seq<u8>), Seq<char>>((w, h, px@)),
            Err(m) => decoded_image(bytes@) == Err::<(u32, u32, Seq<u8>), Seq<char>>(m@),
        },
{
    let decoded = match image::guess_format(bytes) {
        Ok(format) => image::load_from_memory_with_format(bytes, format),
        Err(e) => Err(e),
    };
    match decoded {
        Ok(img) => {
            let (w, h) = img.dimensions();
            Ok((w, h, img.to_rgba8().into_raw()))
        },
        Err(e) => Err(e.to_string()),
    }
}

/// A decoded texture: its size in pixels and its RGBA8 pixels, row by row.
pub struct DecodedImage {
    pub width: u32,
    pub height: u32,
    pub rgba: Vec<u8>,
}

/// Decode the file bytes of a texture. When they are not an image the
/// decoder can read, the error is "Failed to load image: " followed by the
/// decoder's message.
pub fn decode_image(bytes: &[u8]) -> (r: Result<DecodedImage, String>)
    ensures
        match (r, decoded_image(bytes@)) {
            (Ok(img), Ok(d)) => d == (img.width, img.height, img.rgba@),
            (Err(msg), Err(reason)) => msg@ == "Failed to load image: "@ + reason,
            _ => false,
        },
{
    match image_from_memory(bytes) {
        Ok((width, height, rgba)) => Ok(DecodedImage { width, height, rgba }),
        Err(reason) => {
            let msg = concat("Failed to load image: ", reason.as_str());
            Err(msg)
        },
    }
}

} // verus!
