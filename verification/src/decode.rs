//! Decoding of PNG, JPEG and WebP inputs through the image crate, into
//! the library's packed pixel buffer model.

use vstd::prelude::*;
use crate::error::CompressionError;
use crate::formats::InputFormat;
use crate::pixel::{PixelBuffer, PixelLayout};

verus! {

/// What decoding a byte stream in a given format yields: the packed RGBA
/// pixels, the width, the height, and whether the source color type
/// carries an alpha channel — or `None` when the decoder rejects the
/// stream. The image crate's decoders read nothing but their input, so
/// the outcome is a function of these arguments; its value would take
/// pages to state, so it is named, not stated.
pub uninterp spec fn spec_decoded(data: Seq<u8>, format: InputFormat) -> Option<
    (Seq<u8>, u32, u32, bool),
>;

/// Relies on image::load_from_memory_with_format to decode, and on
/// DynamicImage::color / ColorType::has_alpha and DynamicImage::to_rgba8
/// (with ImageBuffer::dimensions and into_raw) to project the decoded
/// image to plain values. The RGBA8 pixels occupy exactly
/// width * height * 4 bytes from the start of the raw container, which an
/// ImageBuffer built over an oversized vector may exceed, so the body
/// trims the container to that documented length. The error is carried as
/// its message; the whole outcome carries the name `spec_decoded`.
#[verifier::external_body]
fn decode_to_rgba(data: &[u8], format: InputFormat) -> (r: Result<
    (Vec<u8>, u32, u32, bool),
    String,
>)
    requires
        format != InputFormat::Heic,
    ensures
        r matches Ok(v) ==> spec_decoded(data@, format) == Some((v.0@, v.1, v.2, v.3)) && v.0@.len()
            == v.1 * v.2 * 4,
        r is Err ==> spec_decoded(data@, format) is None,
{
    let f = match format {
        InputFormat::Png => image::ImageFormat::Png,
        InputFormat::Jpeg => image::ImageFormat::Jpeg,
        InputFormat::WebP | InputFormat::Heic => image::ImageFormat::WebP,
    };
    let img = image::load_from_memory_with_format(data, f).map_err(|e| format!("{}", e))?;
    let has_alpha = img.color().has_alpha();
    let buf = img.to_rgba8();
    let (w, h) = buf.dimensions();
    let mut raw = buf.into_raw();
    raw.truncate(w as usize * h as usize * 4);
    Ok((raw, w, h, has_alpha))
}

/// Decode PNG, JPEG or WebP bytes into a packed RGBA pixel buffer. The
/// result is `Ok` exactly when the decoder accepts the stream, and then
/// holds the decoded pixels, dimensions and alpha flag; these built-in
/// decoders recover no ICC profile, so the profile slot is always empty.
/// Decoder failures surface as `ProcessingError` carrying the decoder's
/// message.
pub fn decode_builtin(input_data: &[u8], format: InputFormat) -> (r: Result<
    (PixelBuffer, Option<Vec<u8>>),
    CompressionError,
>)
    requires
        format != InputFormat::Heic,
    ensures
        r is Ok <==> spec_decoded(input_data@, format) is Some,
        r matches Ok(p) ==> {
            &&& spec_decoded(input_data@, format) == Some(
                (p.0.pixels@, p.0.width, p.0.height, p.0.source_has_alpha),
            )
            &&& p.0.wf()
            &&& p.0.layout == PixelLayout::Rgba
            &&& p.1 is None
        },
        r matches Err(e) ==> e is ProcessingError,
{
    match decode_to_rgba(input_data, format) {
        Ok((pixels, width, height, has_alpha)) => {
            match PixelBuffer::from_rgba(pixels, width, height, has_alpha) {
                Some(buf) => Ok((buf, None)),
                None => {
                    // The decoded buffer is exactly sized, so this arm
                    // cannot be reached.
                    proof {
                        assert(false);
                    }
                    Err(CompressionError::ProcessingError(String::new()))
                },
            }
        },
        Err(msg) => Err(CompressionError::ProcessingError(msg)),
    }
}

} // verus!
