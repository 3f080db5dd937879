//! Media in the form that the service takes: base64 audio and JPEG images.
use vstd::prelude::*;
use vstd::string::*;

use crate::frames::{ImageOf, ImageRawFrame};
use crate::payload::bytes_as_slice;
use crate::text::text_eq;

verus! {

/// The base64 text of data, with padding, in the standard alphabet: what
/// `base64`'s engine `STANDARD` encodes.
pub uninterp spec fn base64_of(data: Seq<u8>) -> Seq<char>;

/// The data that `base64`'s engine `STANDARD` decodes from a text; nothing where
/// it refuses the text.
pub uninterp spec fn base64_decoded(text: Seq<char>) -> Option<Seq<u8>>;

/// How long the base64 text of so many bytes is: four characters for every
/// three bytes begun.
pub open spec fn base64_len(n: nat) -> nat {
    (n + 2) / 3 * 4
}

/// Whether the base64 text of data can be allocated.
pub fn can_encode(data: &[u8]) -> (r: bool)
    ensures
        r == (base64_len(data@.len()) <= isize::MAX),
{
    (data.len() as u128 + 2) / 3 * 4 <= isize::MAX as u128
}

/// Calls `base64::Engine::encode` with the engine `STANDARD`: the result is
/// [`base64_of`], and decodes to the data again. Data whose text would pass the
/// largest allocation is left out.
#[verifier::external_body]
pub(crate) fn encode_base64(data: &[u8]) -> (r: String)
    requires
        base64_len(data@.len()) <= isize::MAX,
    ensures
        r@ == base64_of(data@),
        base64_decoded(r@) == Some(data@),
{
    base64::Engine::encode(&base64::engine::general_purpose::STANDARD, data)
}

/// Calls `base64::Engine::decode` with the engine `STANDARD`: the result is
/// [`base64_decoded`]. Its error is dropped.
#[verifier::external_body]
pub(crate) fn decode_base64(text: &str) -> (r: Option<Vec<u8>>)
    ensures
        match r {
            Some(data) => base64_decoded(text@) == Some(data@),
            None => base64_decoded(text@) is None,
        },
{
    base64::Engine::decode(&base64::engine::general_purpose::STANDARD, text).ok()
}

/// The JPEG data that `image` makes of RGB pixels, or the text of its error.
pub uninterp spec fn jpeg_of_rgb(pixels: Seq<u8>, width: u32, height: u32) -> Result<
    Seq<u8>,
    Seq<char>,
>;

/// The JPEG data that `image` makes of RGBA pixels, or the text of its error.
pub uninterp spec fn jpeg_of_rgba(pixels: Seq<u8>, width: u32, height: u32) -> Result<
    Seq<u8>,
    Seq<char>,
>;

/// What a result says.
pub open spec fn jpeg_result(r: Result<Vec<u8>, String>) -> Result<Seq<u8>, Seq<char>> {
    match r {
        Ok(data) => Ok(data@),
        Err(e) => Err(e@),
    }
}

/// Calls `image::RgbImage::from_raw` and `image::DynamicImage::write_to` with
/// the format JPEG: the result is [`jpeg_of_rgb`]. Fewer bytes than pixels make
/// no image, and the encoder panics on more.
#[verifier::external_body]
fn encode_rgb(pixels: &[u8], width: u32, height: u32) -> (r: Result<Vec<u8>, String>)
    requires
        pixels@.len() == width * height * 3,
    ensures
        jpeg_result(r) == jpeg_of_rgb(pixels@, width, height),
{
    let raw = image::RgbImage::from_raw(width, height, pixels.to_vec());
    let image = image::DynamicImage::ImageRgb8(raw.unwrap_or_default());
    let mut out = std::io::Cursor::new(Vec::new());
    let written = image.write_to(&mut out, image::ImageFormat::Jpeg);
    written.map(|_| out.into_inner()).map_err(|e| e.to_string())
}

/// Calls `image::RgbaImage::from_raw` and `image::DynamicImage::write_to` with
/// the format JPEG, which leaves the alpha channel out: the result is
/// [`jpeg_of_rgba`]. Fewer bytes than pixels make no image.
#[verifier::external_body]
fn encode_rgba(pixels: &[u8], width: u32, height: u32) -> (r: Result<Vec<u8>, String>)
    requires
        pixels@.len() >= width * height * 4,
    ensures
        jpeg_result(r) == jpeg_of_rgba(pixels@, width, height),
{
    let raw = image::RgbaImage::from_raw(width, height, pixels.to_vec());
    let image = image::DynamicImage::ImageRgba8(raw.unwrap_or_default());
    let mut out = std::io::Cursor::new(Vec::new());
    let written = image.write_to(&mut out, image::ImageFormat::Jpeg);
    written.map(|_| out.into_inner()).map_err(|e| e.to_string())
}

/// Whether an image has an alpha channel: its format is RGBA.
pub open spec fn has_alpha(format: Option<Seq<char>>) -> bool {
    format == Some("RGBA"@)
}

/// How many bytes an image of its size takes. Any format but RGBA counts as
/// RGB.
pub open spec fn pixel_data_len(frame: ImageOf<Seq<char>, Seq<u8>>) -> int {
    if has_alpha(frame.format) {
        frame.size.0 * frame.size.1 * 4
    } else {
        frame.size.0 * frame.size.1 * 3
    }
}

/// Whether an image can be handed to the encoder: without alpha channel there
/// are no bytes beyond its pixels.
pub open spec fn encodable(frame: ImageOf<Seq<char>, Seq<u8>>) -> bool {
    !has_alpha(frame.format) ==> frame.image.len() <= pixel_data_len(frame)
}

/// Whether an image can be handed to the encoder.
pub fn is_encodable(frame: &ImageRawFrame) -> (r: bool)
    ensures
        r == encodable(frame@),
{
    let alpha = match &frame.format {
        Some(f) => text_eq(f.as_str(), "RGBA"),
        None => false,
    };
    if alpha {
        return true;
    }
    let (w, h): (u32, u32) = frame.size;
    assert(0 <= w * h <= 0xFFFF_FFFF * 0xFFFF_FFFF) by (nonlinear_arith)
        requires
            0 <= w <= 0xFFFF_FFFF,
            0 <= h <= 0xFFFF_FFFF,
    ;
    let len: u128 = bytes_as_slice(&frame.image).len() as u128;
    len <= (w as u128) * (h as u128) * 3
}

/// The JPEG data of an image, or the error. An image with too few bytes for its
/// size is refused.
pub open spec fn jpeg_of(frame: ImageOf<Seq<char>, Seq<u8>>) -> Result<Seq<u8>, Seq<char>> {
    if frame.image.len() < pixel_data_len(frame) {
        if has_alpha(frame.format) {
            Err("invalid RGBA image dimensions"@)
        } else {
            Err("invalid RGB image dimensions"@)
        }
    } else {
        let encoded = if has_alpha(frame.format) {
            jpeg_of_rgba(frame.image, frame.size.0, frame.size.1)
        } else {
            jpeg_of_rgb(frame.image, frame.size.0, frame.size.1)
        };
        match encoded {
            Ok(data) => Ok(data),
            Err(e) => Err("JPEG encode error: "@ + e),
        }
    }
}

/// Encodes an image as JPEG.
pub fn encode_jpeg(frame: &ImageRawFrame) -> (r: Result<Vec<u8>, String>)
    requires
        encodable(frame@),
    ensures
        jpeg_result(r) == jpeg_of(frame@),
{
    let (w, h): (u32, u32) = frame.size;
    let alpha = match &frame.format {
        Some(f) => text_eq(f.as_str(), "RGBA"),
        None => false,
    };
    let pixels: &[u8] = bytes_as_slice(&frame.image);
    assert(0 <= w * h <= 0xFFFF_FFFF * 0xFFFF_FFFF) by (nonlinear_arith)
        requires
            0 <= w <= 0xFFFF_FFFF,
            0 <= h <= 0xFFFF_FFFF,
    ;
    let count: u128 = (w as u128) * (h as u128);
    let needed: u128 = if alpha {
        count * 4
    } else {
        count * 3
    };
    if (pixels.len() as u128) < needed {
        return Err(
            if alpha {
                "invalid RGBA image dimensions".to_owned()
            } else {
                "invalid RGB image dimensions".to_owned()
            },
        );
    }
    let encoded = if alpha {
        encode_rgba(pixels, w, h)
    } else {
        encode_rgb(pixels, w, h)
    };
    match encoded {
        Ok(data) => Ok(data),
        Err(e) => Err("JPEG encode error: ".to_owned().concat(e.as_str())),
    }
}

/// The address under which JPEG data stands in a document.
pub open spec fn data_uri_of(jpeg: Seq<u8>) -> Seq<char> {
    "data:image/jpeg;base64,"@ + base64_of(jpeg)
}

/// Makes the address under which JPEG data stands in a document.
pub fn data_uri(jpeg: &Vec<u8>) -> (r: String)
    requires
        base64_len(jpeg@.len()) <= isize::MAX,
    ensures
        r@ == data_uri_of(jpeg@),
{
    "data:image/jpeg;base64,".to_owned().concat(encode_base64(jpeg.as_slice()).as_str())
}

} // verus!
