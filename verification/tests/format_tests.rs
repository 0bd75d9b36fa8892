use imgcodec::error::CompressionError;
use imgcodec::formats::{input_format_from_extension, InputFormat, OutputFormat};

#[test]
fn test_format_extension() {
    assert_eq!(OutputFormat::Png.extension(), "png");
    assert_eq!(OutputFormat::Jpeg.extension(), "jpg");
    assert_eq!(OutputFormat::WebP.extension(), "webp");
}

#[test]
fn test_from_string() {
    assert_eq!(OutputFormat::from_string("png"), Some(OutputFormat::Png));
    assert_eq!(OutputFormat::from_string("JPG"), Some(OutputFormat::Jpeg));
    assert_eq!(OutputFormat::from_string("webp"), Some(OutputFormat::WebP));
    assert_eq!(OutputFormat::from_string("unknown"), None);
}

#[test]
fn test_lossless_support() {
    assert!(OutputFormat::Png.supports_lossless());
    assert!(OutputFormat::WebP.supports_lossless());
    assert!(!OutputFormat::Jpeg.supports_lossless());
}

#[test]
fn test_input_format_from_extension() {
    assert_eq!(InputFormat::from_extension("heic"), Some(InputFormat::Heic));
    assert_eq!(InputFormat::from_extension("HEIF"), Some(InputFormat::Heic));
    assert_eq!(InputFormat::from_extension("png"), Some(InputFormat::Png));
    assert_eq!(InputFormat::from_extension("jpg"), Some(InputFormat::Jpeg));
    assert_eq!(InputFormat::from_extension("unknown"), None);
}

#[test]
fn test_input_format_requires_transcoding() {
    assert!(InputFormat::Heic.requires_transcoding());
    assert!(!InputFormat::Png.requires_transcoding());
    assert!(!InputFormat::Jpeg.requires_transcoding());
    assert!(!InputFormat::WebP.requires_transcoding());
}

#[test]
fn test_mime_types() {
    assert_eq!(OutputFormat::Png.mime_type(), "image/png");
    assert_eq!(OutputFormat::Jpeg.mime_type(), "image/jpeg");
    assert_eq!(OutputFormat::WebP.mime_type(), "image/webp");
}

#[test]
fn test_case_insensitive_parsing() {
    assert_eq!(InputFormat::from_extension("PNG"), Some(InputFormat::Png));
    assert_eq!(InputFormat::from_extension("Jpeg"), Some(InputFormat::Jpeg));
    assert_eq!(InputFormat::from_extension("WeBp"), Some(InputFormat::WebP));
    assert_eq!(OutputFormat::from_string("JPEG"), Some(OutputFormat::Jpeg));
}

#[test]
fn test_unsupported_extension_error() {
    let r = input_format_from_extension(Some("bmp"));
    assert!(matches!(r, Err(CompressionError::UnsupportedFormat(ref s)) if s == "bmp"));
    let r = input_format_from_extension(None);
    assert!(matches!(r, Err(CompressionError::UnsupportedFormat(ref s)) if s.is_empty()));
    let r = input_format_from_extension(Some("webp"));
    assert!(matches!(r, Ok(InputFormat::WebP)));
}

#[test]
fn test_display_names() {
    assert_eq!(InputFormat::Heic.display_name(), "HEIC");
    assert_eq!(OutputFormat::WebP.display_name(), "WebP");
    assert_eq!(OutputFormat::Jpeg.lowercase_name(), "jpeg");
    assert_eq!(OutputFormat::Png.lowercase_name(), "png");
}
