//! Compression settings, their validation, and the WebP encoder
//! configuration derived from them.

use vstd::prelude::*;
use crate::error::CompressionError;
use crate::formats::OutputFormat;

verus! {

/// Settings for one compression operation: a quality in 1..=100 and the
/// target format.
#[derive(Debug, Clone, Copy)]
pub struct CompressionSettings {
    pub quality: u8,
    pub format: OutputFormat,
}

impl CompressionSettings {
    /// A quality is valid when it lies in 1..=100.
    pub open spec fn spec_is_valid(self) -> bool {
        1 <= self.quality && self.quality <= 100
    }

    pub fn new(quality: u8, format: OutputFormat) -> (r: Self)
        ensures
            r.quality == quality,
            r.format == format,
    {
        CompressionSettings { quality, format }
    }

    /// True exactly when the quality lies in 1..=100.
    pub fn is_valid(&self) -> (r: bool)
        ensures
            r == self.spec_is_valid(),
    {
        1 <= self.quality && self.quality <= 100
    }
}

/// Accepts settings with a valid quality; rejects any other with an
/// `InvalidSettings` error carrying the offending quality.
pub fn validate_settings(settings: &CompressionSettings) -> (r: Result<(), CompressionError>)
    ensures
        r is Ok <==> settings.spec_is_valid(),
        !settings.spec_is_valid() ==> r == Err::<(), CompressionError>(
            CompressionError::InvalidSettings(settings.quality),
        ),
{
    if settings.is_valid() {
        Ok(())
    } else {
        Err(CompressionError::InvalidSettings(settings.quality))
    }
}

/// The WebP encoder configuration chosen for given settings. Only the
/// fields that the engine fixes are carried; every other encoder knob
/// keeps the encoder's default.
pub enum WebpEncodeParams {
    /// Lossless mode: fixed internal quality, alpha compression disabled.
    Lossless { quality: u8, alpha_compression: bool },
    /// Lossy mode: the user's quality passed through, method level 4,
    /// sharp RGB-to-YUV conversion, alpha quality pinned at 100, and the
    /// automatic deblocking filter.
    Lossy { quality: u8, method: u8, use_sharp_yuv: bool, alpha_quality: u8, autofilter: bool },
}

/// Lossless mode exactly at quality 100 (with fixed internal quality 75
/// and alpha compression off); lossy mode otherwise, with the engine's
/// fixed lossy knobs and the user's quality.
pub fn webp_encode_params(settings: &CompressionSettings) -> (r: WebpEncodeParams)
    requires
        settings.spec_is_valid(),
    ensures
        settings.quality == 100 ==> r == (WebpEncodeParams::Lossless {
            quality: 75u8,
            alpha_compression: false,
        }),
        settings.quality != 100 ==> r == (WebpEncodeParams::Lossy {
            quality: settings.quality,
            method: 4u8,
            use_sharp_yuv: true,
            alpha_quality: 100u8,
            autofilter: true,
        }),
{
    if settings.quality == 100 {
        WebpEncodeParams::Lossless { quality: 75, alpha_compression: false }
    } else {
        WebpEncodeParams::Lossy {
            quality: settings.quality,
            method: 4,
            use_sharp_yuv: true,
            alpha_quality: 100,
            autofilter: true,
        }
    }
}

} // verus!
