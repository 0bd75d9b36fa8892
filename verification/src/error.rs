//! Error taxonomy of the transcoding engine.

use vstd::prelude::*;

verus! {

/// The classified failures a transcode or estimation operation can surface.
///
/// Failures at the codec or filesystem boundary carry the underlying
/// library's message as a `String`; settings and format rejections carry
/// the offending value itself.
#[derive(Debug)]
pub enum CompressionError {
    /// Unknown or missing file extension, or an unsupported format pair.
    /// Carries the format name or extension that was not recognised.
    UnsupportedFormat(String),
    /// Quality outside the valid range. Carries the rejected quality value.
    InvalidSettings(u8),
    /// Decode or encode failure at a codec boundary, wrapping the
    /// underlying library's message.
    ProcessingError(String),
    /// Filesystem read/write/metadata failure, wrapping the OS message.
    IoError(String),
}

} // verus!
