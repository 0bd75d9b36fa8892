//! Supported input and output image formats, and parsing them from
//! file extensions and format names (ASCII case-insensitive).

use vstd::prelude::*;
use vstd::string::StringSliceAdditionalSpecFns;
use crate::bytesutil::{ascii_lower_bytes, spec_lower_bytes, is3, is4};

verus! {

/// Supported input formats for image decoding.
#[derive(Debug, Clone, Copy, PartialEq, Eq, Hash, Structural)]
pub enum InputFormat {
    Png,
    Jpeg,
    WebP,
    Heic,
}

/// Supported output formats for image compression.
#[derive(Debug, Clone, Copy, PartialEq, Eq, Hash, Structural)]
pub enum OutputFormat {
    Png,
    Jpeg,
    WebP,
}

/// The input format that a lower-cased extension (as UTF-8 bytes) denotes.
pub open spec fn spec_input_format_of(ext: Seq<u8>) -> Option<InputFormat> {
    let l = spec_lower_bytes(ext);
    if l == seq![0x70u8, 0x6e, 0x67] {
        Some(InputFormat::Png)
    } else if l == seq![0x6au8, 0x70, 0x67] || l == seq![0x6au8, 0x70, 0x65, 0x67] {
        Some(InputFormat::Jpeg)
    } else if l == seq![0x77u8, 0x65, 0x62, 0x70] {
        Some(InputFormat::WebP)
    } else if l == seq![0x68u8, 0x65, 0x69, 0x63] || l == seq![0x68u8, 0x65, 0x69, 0x66] {
        Some(InputFormat::Heic)
    } else {
        None
    }
}

/// The output format that a lower-cased format name (as UTF-8 bytes) denotes.
pub open spec fn spec_output_format_of(name: Seq<u8>) -> Option<OutputFormat> {
    let l = spec_lower_bytes(name);
    if l == seq![0x70u8, 0x6e, 0x67] {
        Some(OutputFormat::Png)
    } else if l == seq![0x6au8, 0x70, 0x65, 0x67] || l == seq![0x6au8, 0x70, 0x67] {
        Some(OutputFormat::Jpeg)
    } else if l == seq![0x77u8, 0x65, 0x62, 0x70] {
        Some(OutputFormat::WebP)
    } else {
        None
    }
}

/// Determine the input format from a file's extension, as the transcode
/// entry point does: a missing extension or one that no decoder claims is
/// an `UnsupportedFormat` error carrying the extension (empty when there
/// was none).
pub fn input_format_from_extension(ext: Option<&str>) -> (r: Result<
    InputFormat,
    crate::error::CompressionError,
>)
    ensures
        match ext {
            Some(e) => match spec_input_format_of(e.spec_bytes()) {
                Some(f) => r == Ok::<InputFormat, crate::error::CompressionError>(f),
                None => r matches Err(crate::error::CompressionError::UnsupportedFormat(s))
                    && s@ == e@,
            },
            None => r matches Err(crate::error::CompressionError::UnsupportedFormat(s)) && s@
                =~= Seq::<char>::empty(),
        },
{
    match ext {
        Some(e) => match InputFormat::from_extension(e) {
            Some(f) => Ok(f),
            None => Err(crate::error::CompressionError::UnsupportedFormat(e.to_owned())),
        },
        None => {
            let r = Err(crate::error::CompressionError::UnsupportedFormat(String::new()));
            r
        },
    }
}

/// The lower-case name of an output format, as used to key statistics rows.
pub open spec fn spec_lowercase_name(f: OutputFormat) -> Seq<char> {
    match f {
        OutputFormat::Png => "png"@,
        OutputFormat::Jpeg => "jpeg"@,
        OutputFormat::WebP => "webp"@,
    }
}

impl InputFormat {
    /// Parses an input format from a file extension string,
    /// ASCII case-insensitively.
    pub fn from_extension(ext: &str) -> (r: Option<InputFormat>)
        ensures
            r == spec_input_format_of(ext.spec_bytes()),
    {
        let l = ascii_lower_bytes(ext.as_bytes());
        let b = l.as_slice();
        if is3(b, 0x70, 0x6e, 0x67) {
            Some(InputFormat::Png)
        } else if is3(b, 0x6a, 0x70, 0x67) || is4(b, 0x6a, 0x70, 0x65, 0x67) {
            Some(InputFormat::Jpeg)
        } else if is4(b, 0x77, 0x65, 0x62, 0x70) {
            Some(InputFormat::WebP)
        } else if is4(b, 0x68, 0x65, 0x69, 0x63) || is4(b, 0x68, 0x65, 0x69, 0x66) {
            Some(InputFormat::Heic)
        } else {
            None
        }
    }

    /// True if this format must be transcoded before it can be written
    /// back out (no direct output path exists for it).
    pub fn requires_transcoding(&self) -> (r: bool)
        ensures
            r <==> *self == InputFormat::Heic,
    {
        match self {
            InputFormat::Heic => true,
            _ => false,
        }
    }

    /// Human-readable name of the format ("PNG", "JPEG", "WebP", "HEIC").
    pub fn display_name(&self) -> (r: &'static str)
        ensures
            *self == InputFormat::Png ==> r@ == "PNG"@,
            *self == InputFormat::Jpeg ==> r@ == "JPEG"@,
            *self == InputFormat::WebP ==> r@ == "WebP"@,
            *self == InputFormat::Heic ==> r@ == "HEIC"@,
    {
        match self {
            InputFormat::Png => "PNG",
            InputFormat::Jpeg => "JPEG",
            InputFormat::WebP => "WebP",
            InputFormat::Heic => "HEIC",
        }
    }
}

impl OutputFormat {
    /// Returns the file extension for this format.
    pub fn extension(&self) -> (r: &'static str)
        ensures
            *self == OutputFormat::Png ==> r@ == "png"@,
            *self == OutputFormat::Jpeg ==> r@ == "jpg"@,
            *self == OutputFormat::WebP ==> r@ == "webp"@,
    {
        match self {
            OutputFormat::Png => "png",
            OutputFormat::Jpeg => "jpg",
            OutputFormat::WebP => "webp",
        }
    }

    /// Parses an output format from a format name, ASCII case-insensitively.
    pub fn from_string(format: &str) -> (r: Option<OutputFormat>)
        ensures
            r == spec_output_format_of(format.spec_bytes()),
    {
        let l = ascii_lower_bytes(format.as_bytes());
        let b = l.as_slice();
        if is3(b, 0x70, 0x6e, 0x67) {
            Some(OutputFormat::Png)
        } else if is4(b, 0x6a, 0x70, 0x65, 0x67) || is3(b, 0x6a, 0x70, 0x67) {
            Some(OutputFormat::Jpeg)
        } else if is4(b, 0x77, 0x65, 0x62, 0x70) {
            Some(OutputFormat::WebP)
        } else {
            None
        }
    }

    /// Returns the MIME type for this format.
    pub fn mime_type(&self) -> (r: &'static str)
        ensures
            *self == OutputFormat::Png ==> r@ == "image/png"@,
            *self == OutputFormat::Jpeg ==> r@ == "image/jpeg"@,
            *self == OutputFormat::WebP ==> r@ == "image/webp"@,
    {
        match self {
            OutputFormat::Png => "image/png",
            OutputFormat::Jpeg => "image/jpeg",
            OutputFormat::WebP => "image/webp",
        }
    }

    /// True if this format supports lossless compression.
    pub fn supports_lossless(&self) -> (r: bool)
        ensures
            r <==> (*self == OutputFormat::Png || *self == OutputFormat::WebP),
    {
        match self {
            OutputFormat::Png => true,
            OutputFormat::WebP => true,
            OutputFormat::Jpeg => false,
        }
    }

    /// Human-readable name of the format ("PNG", "JPEG", "WebP").
    pub fn display_name(&self) -> (r: &'static str)
        ensures
            *self == OutputFormat::Png ==> r@ == "PNG"@,
            *self == OutputFormat::Jpeg ==> r@ == "JPEG"@,
            *self == OutputFormat::WebP ==> r@ == "WebP"@,
    {
        match self {
            OutputFormat::Png => "PNG",
            OutputFormat::Jpeg => "JPEG",
            OutputFormat::WebP => "WebP",
        }
    }

    /// Lower-case name of the format ("png", "jpeg", "webp"), as used to
    /// key statistics rows.
    pub fn lowercase_name(&self) -> (r: &'static str)
        ensures
            r@ == spec_lowercase_name(*self),
    {
        match self {
            OutputFormat::Png => "png",
            OutputFormat::Jpeg => "jpeg",
            OutputFormat::WebP => "webp",
        }
    }
}

} // verus!
