//! The result of one compression operation, and the statistic row derived
//! from it.

use vstd::prelude::*;
use vstd::string::StringSliceAdditionalSpecFns;
use crate::formats::{spec_lowercase_name, OutputFormat};
use crate::settings::CompressionSettings;
use crate::stats::{
    create_stat, size_reduction_basis_points, spec_reduction_bp, spec_size_range, CompressionStat,
};

verus! {

/// Result of a compression operation: where the output was written, the
/// byte sizes before and after, the target format, and the savings in
/// basis points (hundredths of a percent).
#[derive(Debug, Clone)]
pub struct CompressionOutput {
    pub output_path: String,
    pub original_size: u64,
    pub compressed_size: u64,
    pub format: OutputFormat,
    /// `(original - compressed) / original * 10000`; 0 when the original
    /// size is 0 (no division by zero), negative exactly when the output
    /// grew (growth is rounded up in magnitude).
    pub savings_bp: i128,
}

impl CompressionOutput {
    pub fn new(
        output_path: String,
        original_size: u64,
        compressed_size: u64,
        format: OutputFormat,
    ) -> (r: Self)
        ensures
            r.output_path == output_path,
            r.original_size == original_size,
            r.compressed_size == compressed_size,
            r.format == format,
            r.savings_bp == spec_reduction_bp(original_size, compressed_size),
            r.savings_bp < 0 <==> (compressed_size > original_size && original_size > 0),
    {
        let savings_bp = size_reduction_basis_points(original_size, compressed_size);
        CompressionOutput { output_path, original_size, compressed_size, format, savings_bp }
    }
}

/// Create a compression statistic from an operation's result, keyed by the
/// input format as given and the output format's lower-case name.
pub fn create_compression_stat(
    input_format: &str,
    output: &CompressionOutput,
    settings: &CompressionSettings,
) -> (r: CompressionStat)
    ensures
        r.id is None,
        r.input_format@ == input_format@,
        r.output_format@ == spec_lowercase_name(output.format),
        r.input_size_range@ == spec_size_range(output.original_size),
        r.quality_setting == settings.quality,
        r.lossy_mode == (settings.quality < 90),
        r.size_reduction_bp == spec_reduction_bp(output.original_size, output.compressed_size),
        r.original_size == output.original_size,
        r.compressed_size == output.compressed_size,
        r.compression_time_ms is None,
        r.image_type is None,
{
    create_stat(
        input_format.to_owned(),
        output.format.lowercase_name().to_owned(),
        output.original_size,
        output.compressed_size,
        settings,
    )
}

} // verus!
