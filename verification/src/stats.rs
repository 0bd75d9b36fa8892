//! Compression statistics and the estimation engine.
//!
//! All percentages are carried as integers in basis points (hundredths of
//! a percent): a size reduction of 99.5% is 9950 basis points. Ratios are
//! carried in basis points of 1.0, so a ratio of 0.15 is 1500. Confidence
//! is carried in whole percent, 0..=100. Variance (of reduction percent
//! values) is carried in hundredths.

use vstd::prelude::*;
use vstd::string::StringSliceAdditionalSpecFns;
use crate::formats::{spec_input_format_of, spec_output_format_of, InputFormat, OutputFormat};
use crate::settings::CompressionSettings;

verus! {

/// Statistics about one completed compression operation.
#[derive(Debug, Clone)]
pub struct CompressionStat {
    pub id: Option<i64>,
    pub input_format: String,
    pub output_format: String,
    /// One of "small" (at most 1 MB), "medium" (at most 5 MB), "large".
    pub input_size_range: String,
    pub quality_setting: u8,
    pub lossy_mode: bool,
    /// Signed size reduction in basis points; negative exactly when the
    /// output grew (growth is rounded up in magnitude, so even a growth
    /// below one basis point stays negative).
    pub size_reduction_bp: i128,
    pub original_size: u64,
    pub compressed_size: u64,
    pub compression_time_ms: Option<u64>,
    pub timestamp: String,
    pub image_type: Option<String>,
}

/// Query parameters for a compression estimation.
#[derive(Debug, Clone)]
pub struct EstimationQuery {
    pub input_format: String,
    pub output_format: String,
    pub original_size: u64,
    pub quality_setting: u8,
    pub lossy_mode: bool,
}

/// Result of a compression estimation.
#[derive(Debug, Clone, Copy, PartialEq, Eq, Structural)]
pub struct EstimationResult {
    /// Predicted size reduction in basis points.
    pub percent_bp: i64,
    /// Predicted compressed/original size ratio, in basis points of 1.0;
    /// always `10000 - percent_bp`.
    pub ratio_bp: i64,
    /// Confidence in the prediction, in whole percent, 0..=100.
    pub confidence_pct: u8,
    /// Number of historical samples backing the prediction.
    pub sample_count: u32,
}

/// The size-range bucket of a byte count: "small" up to 1 MB, "medium" up
/// to 5 MB, "large" above.
pub open spec fn spec_size_range(size_bytes: u64) -> Seq<char> {
    if size_bytes <= 1_000_000 {
        "small"@
    } else if size_bytes <= 5_000_000 {
        "medium"@
    } else {
        "large"@
    }
}

/// Determines the size range bucket for a given file size in bytes.
pub fn get_size_range(size_bytes: u64) -> (r: String)
    ensures
        r@ == spec_size_range(size_bytes),
{
    if size_bytes <= 1_000_000 {
        "small".to_owned()
    } else if size_bytes <= 5_000_000 {
        "medium".to_owned()
    } else {
        "large".to_owned()
    }
}

/// Signed size reduction in basis points: `(original - compressed) /
/// original * 10000`, and 0 when the original size is 0. A reduction is
/// rounded down; growth is rounded up in magnitude (ceiling division),
/// so that any growth at all yields a negative value.
pub open spec fn spec_reduction_bp(original: u64, compressed: u64) -> int {
    if original == 0 {
        0
    } else if compressed <= original {
        (original - compressed) * 10000 / (original as int)
    } else {
        -(((compressed - original) * 10000 + (original - 1)) / (original as int))
    }
}

/// Law: the recorded size reduction is negative exactly when the output
/// grew (and the original size was not zero).
pub proof fn lemma_reduction_sign(original: u64, compressed: u64)
    ensures
        spec_reduction_bp(original, compressed) < 0 <==> (compressed > original && original > 0),
{
    if original > 0 && compressed > original {
        let o = original as int;
        let n = (compressed - original) * 10000 + (original - 1);
        assert(n / o >= 1) by (nonlinear_arith)
            requires
                n >= o > 0,
        ;
    }
    if original > 0 && compressed <= original {
        let o = original as int;
        let n = (original - compressed) * 10000;
        assert(n / o >= 0) by (nonlinear_arith)
            requires
                n >= 0 && o > 0,
        ;
    }
}

/// Compute the signed size reduction of a compression outcome, in basis
/// points; negative exactly when the output grew.
pub fn size_reduction_basis_points(original: u64, compressed: u64) -> (r: i128)
    ensures
        r == spec_reduction_bp(original, compressed),
        r < 0 <==> (compressed > original && original > 0),
{
    proof {
        lemma_reduction_sign(original, compressed);
    }
    if original == 0 {
        0
    } else if compressed <= original {
        let num: u128 = (original - compressed) as u128 * 10000;
        (num / (original as u128)) as i128
    } else {
        let num: u128 = (compressed - original) as u128 * 10000 + (original as u128 - 1);
        -((num / (original as u128)) as i128)
    }
}

/// The per-sample-count base confidence step, in percent: 0 samples give
/// 0, up to 5 give 30, up to 20 give 60, up to 50 give 80, more give 90.
pub open spec fn spec_base_confidence_pct(sample_count: u32) -> int {
    if sample_count == 0 {
        0
    } else if sample_count <= 5 {
        30
    } else if sample_count <= 20 {
        60
    } else if sample_count <= 50 {
        80
    } else {
        90
    }
}

/// Confidence in percent: the base step damped by the variance factor
/// `1/(1 + variance)` (variance in hundredths, so the factor is
/// `100/(100 + variance_centi)`), capped at 100.
pub open spec fn spec_confidence_pct(sample_count: u32, variance_centi: u64) -> int {
    let base = spec_base_confidence_pct(sample_count);
    let damped = if variance_centi > 0 {
        base * 100 / (100 + variance_centi as int)
    } else {
        base
    };
    if damped > 100 {
        100
    } else {
        damped
    }
}

/// Calculates the confidence level (in percent) from the number of
/// matching historical samples and the variance (in hundredths) of their
/// reduction percents. Zero samples always give zero confidence.
pub fn calculate_confidence(sample_count: u32, variance_centi: u64) -> (r: u8)
    ensures
        r == spec_confidence_pct(sample_count, variance_centi),
        sample_count == 0 ==> r == 0,
        r <= 100,
{
    let base: u8 = if sample_count == 0 {
        0
    } else if sample_count <= 5 {
        30
    } else if sample_count <= 20 {
        60
    } else if sample_count <= 50 {
        80
    } else {
        90
    };
    let damped: u128 = if variance_centi > 0 {
        (base as u128 * 100) / (100 + variance_centi as u128)
    } else {
        base as u128
    };
    if damped > 100 {
        100
    } else {
        damped as u8
    }
}

/// The heuristic estimation table: for a format pair and quality, the base
/// reduction at quality 80 (basis points), the confidence (percent), and
/// the sensitivity of the reduction to each quality point (basis points
/// per point). Structurally lossless paths have sensitivity 0; unknown
/// pairs fall to a low-confidence, low-compression default.
pub open spec fn spec_heuristic_row(
    inf: Option<InputFormat>,
    outf: Option<OutputFormat>,
    quality: u8,
) -> (int, int, int) {
    match (inf, outf) {
        (Some(InputFormat::Png), Some(OutputFormat::WebP)) => if quality >= 90 {
            (4300, 80, 20)
        } else {
            (8500, 90, 50)
        },
        (Some(InputFormat::Jpeg), Some(OutputFormat::WebP)) => (800, 50, 15),
        (Some(InputFormat::Png), Some(OutputFormat::Png)) => (1500, 90, 0),
        (Some(InputFormat::Jpeg), Some(OutputFormat::Jpeg)) => (2000, 80, 30),
        (Some(InputFormat::WebP), Some(OutputFormat::WebP)) => (1000, 60, 20),
        (Some(InputFormat::Heic), Some(OutputFormat::WebP)) => (7000, 70, 50),
        (Some(InputFormat::Heic), Some(OutputFormat::Jpeg)) => (5000, 70, 40),
        (Some(InputFormat::Heic), Some(OutputFormat::Png)) => (1000, 50, 0),
        _ => (500, 30, 10),
    }
}

/// The heuristic predicted reduction: the base modulated by the quality
/// delta around the reference quality 80, clamped into 0..=9900 basis
/// points (0% to 99%).
pub open spec fn spec_heuristic_percent_bp(base: int, sensitivity: int, quality: u8) -> int {
    let raw = base - (quality - 80) * sensitivity;
    if raw < 0 {
        0
    } else if raw > 9900 {
        9900
    } else {
        raw
    }
}

/// The whole heuristic estimate for a format pair and quality: clamped
/// percent, the matching ratio, the table's confidence, and a coarse
/// sample-count indicator (100 when confidence exceeds 70%, else 10).
pub open spec fn spec_heuristic_estimate(
    inf: Option<InputFormat>,
    outf: Option<OutputFormat>,
    quality: u8,
) -> EstimationResult {
    let row = spec_heuristic_row(inf, outf, quality);
    let p = spec_heuristic_percent_bp(row.0, row.2, quality);
    EstimationResult {
        percent_bp: p as i64,
        ratio_bp: (10000 - p) as i64,
        confidence_pct: row.1 as u8,
        sample_count: if row.1 > 70 {
            100
        } else {
            10
        },
    }
}

/// Estimates compression results for a format pair and settings, without
/// historical data. Lower quality yields more predicted compression; the
/// predicted percent always lies in 0..=9900 basis points and the ratio is
/// its exact complement.
pub fn estimate_compression(
    input_format: &str,
    output_format: &str,
    _original_size: u64,
    settings: &CompressionSettings,
) -> (r: EstimationResult)
    ensures
        r == spec_heuristic_estimate(
            spec_input_format_of(input_format.spec_bytes()),
            spec_output_format_of(output_format.spec_bytes()),
            settings.quality,
        ),
        0 <= r.percent_bp <= 9900,
        r.ratio_bp == 10000 - r.percent_bp,
{
    let inf = InputFormat::from_extension(input_format);
    let outf = OutputFormat::from_string(output_format);
    let quality = settings.quality;
    let (base, confidence, sensitivity): (i64, u8, i64) = match (inf, outf) {
        (Some(InputFormat::Png), Some(OutputFormat::WebP)) => {
            if quality >= 90 {
                (4300, 80, 20)
            } else {
                (8500, 90, 50)
            }
        },
        (Some(InputFormat::Jpeg), Some(OutputFormat::WebP)) => (800, 50, 15),
        (Some(InputFormat::Png), Some(OutputFormat::Png)) => (1500, 90, 0),
        (Some(InputFormat::Jpeg), Some(OutputFormat::Jpeg)) => (2000, 80, 30),
        (Some(InputFormat::WebP), Some(OutputFormat::WebP)) => (1000, 60, 20),
        (Some(InputFormat::Heic), Some(OutputFormat::WebP)) => (7000, 70, 50),
        (Some(InputFormat::Heic), Some(OutputFormat::Jpeg)) => (5000, 70, 40),
        (Some(InputFormat::Heic), Some(OutputFormat::Png)) => (1000, 50, 0),
        _ => (500, 30, 10),
    };
    let quality_delta: i64 = quality as i64 - 80;
    let raw: i64 = base - quality_delta * sensitivity;
    let percent_bp: i64 = if raw < 0 {
        0
    } else if raw > 9900 {
        9900
    } else {
        raw
    };
    EstimationResult {
        percent_bp,
        ratio_bp: 10000 - percent_bp,
        confidence_pct: confidence,
        sample_count: if confidence > 70 {
            100
        } else {
            10
        },
    }
}

/// Law: at a fixed variance, confidence never decreases as the sample
/// count grows.
pub proof fn lemma_confidence_monotone_in_samples(s1: u32, s2: u32, variance_centi: u64)
    requires
        s1 <= s2,
    ensures
        spec_confidence_pct(s1, variance_centi) <= spec_confidence_pct(s2, variance_centi),
{
    let b1 = spec_base_confidence_pct(s1);
    let b2 = spec_base_confidence_pct(s2);
    assert(b1 <= b2);
    if variance_centi > 0 {
        vstd::arithmetic::div_mod::lemma_div_is_ordered(
            b1 * 100,
            b2 * 100,
            100 + variance_centi as int,
        );
    }
}

/// Law: at a fixed sample count, confidence never increases as the
/// variance grows.
pub proof fn lemma_confidence_antitone_in_variance(sample_count: u32, v1: u64, v2: u64)
    requires
        v1 <= v2,
    ensures
        spec_confidence_pct(sample_count, v2) <= spec_confidence_pct(sample_count, v1),
{
    let base = spec_base_confidence_pct(sample_count);
    if 0 < v1 {
        vstd::arithmetic::div_mod::lemma_div_is_ordered_by_denominator(
            base * 100,
            100 + v1 as int,
            100 + v2 as int,
        );
    } else if 0 < v2 {
        vstd::arithmetic::div_mod::lemma_div_is_ordered_by_denominator(
            base * 100,
            100,
            100 + v2 as int,
        );
        vstd::arithmetic::div_mod::lemma_div_multiples_vanish(base, 100);
    }
}

/// Relies on chrono::Utc::now and chrono::DateTime::to_rfc3339 for the
/// current wall-clock time as an RFC 3339 string. The value depends on
/// the clock, so nothing is promised of it.
#[verifier::external_body]
fn now_rfc3339() -> String {
    chrono::Utc::now().to_rfc3339()
}

/// Creates a compression statistic record for a completed operation,
/// stamped with the current time.
pub fn create_stat(
    input_format: String,
    output_format: String,
    original_size: u64,
    compressed_size: u64,
    settings: &CompressionSettings,
) -> (r: CompressionStat)
    ensures
        r.id is None,
        r.input_format == input_format,
        r.output_format == output_format,
        r.input_size_range@ == spec_size_range(original_size),
        r.quality_setting == settings.quality,
        r.lossy_mode == (settings.quality < 90),
        r.size_reduction_bp == spec_reduction_bp(original_size, compressed_size),
        r.size_reduction_bp < 0 <==> (compressed_size > original_size && original_size > 0),
        r.original_size == original_size,
        r.compressed_size == compressed_size,
        r.compression_time_ms is None,
        r.image_type is None,
{
    let size_reduction_bp = size_reduction_basis_points(original_size, compressed_size);
    CompressionStat {
        id: None,
        input_format,
        output_format,
        input_size_range: get_size_range(original_size),
        quality_setting: settings.quality,
        lossy_mode: settings.quality < 90,
        size_reduction_bp,
        original_size,
        compressed_size,
        compression_time_ms: None,
        timestamp: now_rfc3339(),
        image_type: None,
    }
}

/// Creates a compression statistic record carrying timing information.
pub fn create_stat_with_time(
    input_format: String,
    output_format: String,
    original_size: u64,
    compressed_size: u64,
    compression_time_ms: u64,
    settings: &CompressionSettings,
    _tool_version: String,
) -> (r: CompressionStat)
    ensures
        r.id is None,
        r.input_format == input_format,
        r.output_format == output_format,
        r.input_size_range@ == spec_size_range(original_size),
        r.quality_setting == settings.quality,
        r.lossy_mode == (settings.quality < 90),
        r.size_reduction_bp == spec_reduction_bp(original_size, compressed_size),
        r.size_reduction_bp < 0 <==> (compressed_size > original_size && original_size > 0),
        r.original_size == original_size,
        r.compressed_size == compressed_size,
        r.compression_time_ms == Some(compression_time_ms),
        r.image_type is None,
{
    let mut stat = create_stat(
        input_format,
        output_format,
        original_size,
        compressed_size,
        settings,
    );
    stat.compression_time_ms = Some(compression_time_ms);
    stat
}

} // verus!
