//! PNG encoding with ICC embedding, and structural PNG optimization with
//! its non-error degrade path.

use vstd::prelude::*;
use crate::error::CompressionError;
use crate::pixel::{PixelBuffer, PixelLayout};

verus! {

/// What the PNG encoder returns for a packed RGBA buffer, its dimensions
/// and an optional ICC profile. The encoding is a pure function of these
/// arguments; its bytes are not stated, only named. `None` stands for the
/// encoder refusing the input.
pub uninterp spec fn spec_png_encoding(
    pixels: Seq<u8>,
    width: u32,
    height: u32,
    icc: Option<Seq<u8>>,
) -> Option<Seq<u8>>;

/// The view of an optional ICC byte vector.
pub open spec fn spec_opt_bytes(icc: Option<&Vec<u8>>) -> Option<Seq<u8>> {
    match icc {
        Some(v) => Some(v@),
        None => None,
    }
}

/// Relies on image::codecs::png::PngEncoder::write_image, with
/// ImageEncoder::set_icc_profile to attach the profile beforehand:
/// encodes a packed RGBA8 buffer as PNG into memory. The encoding
/// depends on the arguments alone, so the result carries the name
/// `spec_png_encoding`. The buffer length must match the dimensions;
/// the encoder refuses anything else.
#[verifier::external_body]
fn png_encode_rgba(pixels: &[u8], width: u32, height: u32, icc: Option<&Vec<u8>>) -> (r: Result<
    Vec<u8>,
    String,
>)
    requires
        pixels@.len() == width * height * 4,
    ensures
        match r {
            Ok(v) => spec_png_encoding(pixels@, width, height, spec_opt_bytes(icc)) == Some(v@),
            Err(_) => spec_png_encoding(pixels@, width, height, spec_opt_bytes(icc)) is None,
        },
{
    let mut dest: Vec<u8> = Vec::new();
    let mut encoder = image::codecs::png::PngEncoder::new(&mut dest);
    if let Some(profile) = icc {
        let _ = image::ImageEncoder::set_icc_profile(&mut encoder, profile.clone());
    }
    match image::ImageEncoder::write_image(
        encoder,
        pixels,
        width,
        height,
        image::ExtendedColorType::Rgba8,
    ) {
        Ok(()) => Ok(dest),
        Err(e) => Err(format!("{}", e)),
    }
}

/// Encode a decoded image as PNG with an optional ICC profile embedded
/// through the encoder's metadata channel.
pub fn encode_png_with_icc(img: &PixelBuffer, icc_profile: Option<&Vec<u8>>) -> (r: Result<
    Vec<u8>,
    CompressionError,
>)
    requires
        img.wf(),
        img.layout == PixelLayout::Rgba,
    ensures
        match r {
            Ok(v) => spec_png_encoding(
                img.pixels@,
                img.width,
                img.height,
                spec_opt_bytes(icc_profile),
            ) == Some(v@),
            Err(e) => e is ProcessingError && spec_png_encoding(
                img.pixels@,
                img.width,
                img.height,
                spec_opt_bytes(icc_profile),
            ) is None,
        },
{
    match png_encode_rgba(img.pixels.as_slice(), img.width, img.height, icc_profile) {
        Ok(v) => Ok(v),
        Err(msg) => Err(CompressionError::ProcessingError(msg)),
    }
}

/// What the structural PNG optimizer returns for a byte stream, at the
/// engine's fixed preset: the restructured stream, or `None` when the
/// optimizer rejects the input. With fixed options and no timeout the
/// outcome depends on the input alone (candidates are reduced by a total
/// comparison key), so it carries a name rather than a statement.
pub uninterp spec fn spec_oxipng(data: Seq<u8>) -> Option<Seq<u8>>;

/// Relies on oxipng::optimize_from_memory with
/// oxipng::Options::from_preset(3): losslessly restructures a PNG stream
/// (existing iCCP chunks are preserved by default). The outcome is a
/// function of the input at these fixed options, so it carries the name
/// `spec_oxipng`; the error carries the optimizer's message.
#[verifier::external_body]
fn oxipng_optimize(data: &Vec<u8>) -> (r: Result<Vec<u8>, String>)
    ensures
        r matches Ok(v) ==> spec_oxipng(data@) == Some(v@),
        r is Err ==> spec_oxipng(data@) is None,
{
    let options = oxipng::Options::from_preset(3);
    oxipng::optimize_from_memory(data.as_slice(), &options).map_err(|e| format!("{}", e))
}

/// Structural PNG optimization with the engine's degrade path: the
/// optimizer's output when it succeeds (flag true), the input unchanged
/// when it fails (flag false). Optimization failure is never an error.
pub fn optimize_png_or_original(data: Vec<u8>) -> (r: (Vec<u8>, bool))
    ensures
        r.1 <==> spec_oxipng(data@) is Some,
        r.1 ==> Some(r.0@) == spec_oxipng(data@),
        !r.1 ==> r.0@ == data@,
{
    match oxipng_optimize(&data) {
        Ok(v) => (v, true),
        Err(_) => (data, false),
    }
}

/// Re-encode a decoded image as PNG embedding its recovered ICC profile,
/// then run the structural optimizer on the result: the result is the
/// optimized encoding when the optimizer succeeds, and the unoptimized
/// (but valid) PNG when it fails — optimizer failure is silently ignored.
pub fn reencode_png_with_icc(img: &PixelBuffer, icc_profile: Option<&Vec<u8>>) -> (r: Result<
    Vec<u8>,
    CompressionError,
>)
    requires
        img.wf(),
        img.layout == PixelLayout::Rgba,
    ensures
        r is Ok <==> spec_png_encoding(
            img.pixels@,
            img.width,
            img.height,
            spec_opt_bytes(icc_profile),
        ) is Some,
        r matches Ok(v) ==> (spec_png_encoding(
            img.pixels@,
            img.width,
            img.height,
            spec_opt_bytes(icc_profile),
        ) matches Some(enc) ==> v@ == (match spec_oxipng(enc) {
            Some(optimized) => optimized,
            None => enc,
        })),
        r matches Err(e) ==> e is ProcessingError,
{
    let encoded = encode_png_with_icc(img, icc_profile)?;
    let (optimized, _) = optimize_png_or_original(encoded);
    Ok(optimized)
}

} // verus!
