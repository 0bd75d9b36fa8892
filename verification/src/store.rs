//! Decision logic around the statistics store.
//!
//! The store itself (a guarded database connection) is an external
//! collaborator; this module holds the verified logic that its queries
//! feed: turning request values into queries and statistic rows, choosing
//! between a historical estimate and the heuristic fallback, the quality
//! window of a lookup, and the default prediction table.

use vstd::prelude::*;
use vstd::string::StringSliceAdditionalSpecFns;
use crate::bytesutil::{is3, is4};
use crate::formats::{spec_input_format_of, spec_output_format_of};
use crate::settings::CompressionSettings;
use crate::stats::{
    calculate_confidence, create_stat, estimate_compression, spec_confidence_pct,
    spec_heuristic_estimate, spec_reduction_bp, spec_size_range, CompressionStat, EstimationQuery,
    EstimationResult,
};

verus! {

/// An estimation request as the invocation boundary delivers it.
#[derive(Debug, Clone)]
pub struct GetEstimationRequest {
    pub input_format: String,
    pub output_format: String,
    pub original_size: u64,
    pub quality_setting: u8,
    pub lossy_mode: bool,
}

/// A record-statistic request as the invocation boundary delivers it.
#[derive(Debug, Clone)]
pub struct RecordStatRequest {
    pub input_format: String,
    pub output_format: String,
    pub original_size: u64,
    pub compressed_size: u64,
    pub quality_setting: u8,
    pub lossy_mode: bool,
}

/// Turn an estimation request into the store query it stands for.
pub fn query_from_request(request: GetEstimationRequest) -> (q: EstimationQuery)
    ensures
        q.input_format == request.input_format,
        q.output_format == request.output_format,
        q.original_size == request.original_size,
        q.quality_setting == request.quality_setting,
        q.lossy_mode == request.lossy_mode,
{
    EstimationQuery {
        input_format: request.input_format,
        output_format: request.output_format,
        original_size: request.original_size,
        quality_setting: request.quality_setting,
        lossy_mode: request.lossy_mode,
    }
}

/// Build the statistic row that a record request describes, stamped with
/// the current time.
pub fn stat_from_request(request: RecordStatRequest) -> (r: CompressionStat)
    ensures
        r.id is None,
        r.input_format == request.input_format,
        r.output_format == request.output_format,
        r.input_size_range@ == spec_size_range(request.original_size),
        r.quality_setting == request.quality_setting,
        r.lossy_mode == (request.quality_setting < 90),
        r.size_reduction_bp == spec_reduction_bp(request.original_size, request.compressed_size),
        r.size_reduction_bp < 0 <==> (request.compressed_size > request.original_size
            && request.original_size > 0),
        r.original_size == request.original_size,
        r.compressed_size == request.compressed_size,
        r.compression_time_ms is None,
        r.image_type is None,
{
    let settings = CompressionSettings::new(
        request.quality_setting,
        match crate::formats::OutputFormat::from_string(request.output_format.as_str()) {
            Some(f) => f,
            None => crate::formats::OutputFormat::WebP,
        },
    );
    create_stat(
        request.input_format,
        request.output_format,
        request.original_size,
        request.compressed_size,
        &settings,
    )
}

/// Build a synthetic seed statistic row: quality 80, lossy, with the size
/// range and reduction computed from the given sizes, carrying the given
/// timestamp.
pub fn make_seed_stat(
    input_format: String,
    output_format: String,
    original_size: u64,
    compressed_size: u64,
    timestamp: String,
) -> (r: CompressionStat)
    ensures
        r.id is None,
        r.input_format == input_format,
        r.output_format == output_format,
        r.input_size_range@ == spec_size_range(original_size),
        r.quality_setting == 80,
        r.lossy_mode == true,
        r.size_reduction_bp == spec_reduction_bp(original_size, compressed_size),
        r.size_reduction_bp < 0 <==> (compressed_size > original_size && original_size > 0),
        r.original_size == original_size,
        r.compressed_size == compressed_size,
        r.compression_time_ms is None,
        r.timestamp == timestamp,
        r.image_type is None,
{
    let size_reduction_bp = crate::stats::size_reduction_basis_points(
        original_size,
        compressed_size,
    );
    CompressionStat {
        id: None,
        input_format,
        output_format,
        input_size_range: crate::stats::get_size_range(original_size),
        quality_setting: 80,
        lossy_mode: true,
        size_reduction_bp,
        original_size,
        compressed_size,
        compression_time_ms: None,
        timestamp,
        image_type: None,
    }
}

/// The quality window of a historical lookup: ten quality points either
/// side of the requested quality, clamped into 1..=100.
pub fn quality_window(quality: u8) -> (r: (u8, u8))
    ensures
        r.0 == if quality >= 11 {
            (quality - 10) as u8
        } else {
            1u8
        },
        r.1 == if quality <= 90 {
            (quality + 10) as u8
        } else {
            100u8
        },
{
    let lo: u8 = if quality >= 11 { quality - 10 } else { 1 };
    let hi: u8 = if quality <= 90 { quality + 10 } else { 100 };
    (lo, hi)
}

/// The windowed aggregate a historical lookup returns: average reduction
/// (basis points, absent when no row matched), the number of matching
/// rows, and the variance of the reduction percents (hundredths, absent
/// when the store reports none).
#[derive(Debug, Clone, Copy, PartialEq, Eq, Structural)]
pub struct HistoryStats {
    pub avg_reduction_bp: Option<i64>,
    pub sample_count: u32,
    pub variance_centi: Option<u64>,
}

/// The confidence a history aggregate yields: its variance when reported,
/// zero otherwise.
pub open spec fn spec_history_confidence(h: HistoryStats) -> int {
    match h.variance_centi {
        Some(v) => spec_confidence_pct(h.sample_count, v),
        None => spec_confidence_pct(h.sample_count, 0),
    }
}

/// The resolved estimation for a query (given by its format-name bytes
/// and quality) and an optional historical aggregate: a historical
/// aggregate with at least one sample and a reported average yields the
/// average, its exact ratio complement, the damped confidence and the
/// true sample count; anything else yields the heuristic table estimate.
pub open spec fn spec_resolved_estimation(
    inf_bytes: Seq<u8>,
    outf_bytes: Seq<u8>,
    quality: u8,
    history: Option<HistoryStats>,
) -> EstimationResult {
    let fallback = spec_heuristic_estimate(
        spec_input_format_of(inf_bytes),
        spec_output_format_of(outf_bytes),
        quality,
    );
    match history {
        Some(h) => match h.avg_reduction_bp {
            Some(avg) => if h.sample_count > 0 {
                EstimationResult {
                    percent_bp: avg,
                    ratio_bp: (10000 - avg) as i64,
                    confidence_pct: spec_history_confidence(h) as u8,
                    sample_count: h.sample_count,
                }
            } else {
                fallback
            },
            None => fallback,
        },
        None => fallback,
    }
}

/// Resolve an estimation: a historical aggregate with at least one sample
/// and a reported average wins; anything else falls back to the heuristic
/// table for the query's format pair and quality. The bound on the
/// average keeps the ratio complement inside `i64`.
pub fn resolve_estimation(query: &EstimationQuery, history: Option<HistoryStats>) -> (r:
    EstimationResult)
    requires
        history matches Some(h) ==> (h.avg_reduction_bp matches Some(a) ==> -1_000_000_000 <= a
            <= 1_000_000_000),
    ensures
        r == spec_resolved_estimation(
            vstd::utf8::encode_utf8(query.input_format@),
            vstd::utf8::encode_utf8(query.output_format@),
            query.quality_setting,
            history,
        ),
{
    match history {
        Some(h) => {
            match h.avg_reduction_bp {
                Some(avg) if h.sample_count > 0 => {
                    let variance_centi: u64 = match h.variance_centi {
                        Some(v) => v,
                        None => 0,
                    };
                    let confidence_pct = calculate_confidence(h.sample_count, variance_centi);
                    EstimationResult {
                        percent_bp: avg,
                        ratio_bp: 10000 - avg,
                        confidence_pct,
                        sample_count: h.sample_count,
                    }
                },
                _ => heuristic_fallback(query),
            }
        },
        None => heuristic_fallback(query),
    }
}

/// The heuristic estimate for a query's format pair and quality.
fn heuristic_fallback(query: &EstimationQuery) -> (r: EstimationResult)
    ensures
        r == spec_heuristic_estimate(
            spec_input_format_of(vstd::utf8::encode_utf8(query.input_format@)),
            spec_output_format_of(vstd::utf8::encode_utf8(query.output_format@)),
            query.quality_setting,
        ),
{
    let settings = CompressionSettings::new(
        query.quality_setting,
        match crate::formats::OutputFormat::from_string(query.output_format.as_str()) {
            Some(f) => f,
            None => crate::formats::OutputFormat::WebP,
        },
    );
    estimate_compression(
        query.input_format.as_str(),
        query.output_format.as_str(),
        query.original_size,
        &settings,
    )
}

/// The default prediction (basis points) for a format pair with no stored
/// history, keyed by the exact (case-sensitive) format names.
pub open spec fn spec_default_prediction_bp(inf: Seq<u8>, outf: Seq<u8>) -> int {
    let png = seq![0x50u8, 0x4e, 0x47];
    let webp = seq![0x57u8, 0x65, 0x62, 0x50];
    let jpeg = seq![0x4au8, 0x50, 0x45, 0x47];
    if inf == png && outf == webp {
        7000
    } else if inf == jpeg && outf == webp {
        2500
    } else if inf == png && outf == png {
        1500
    } else if inf == jpeg && outf == jpeg {
        2000
    } else {
        1000
    }
}

/// The prediction for a format pair given the stored average reduction:
/// the average itself when there is one, the default table entry when the
/// store reported zero (meaning no data).
pub fn resolve_prediction(avg_bp: i64, input_format: &str, output_format: &str) -> (r: i64)
    ensures
        r == if avg_bp == 0 {
            spec_default_prediction_bp(input_format.spec_bytes(), output_format.spec_bytes())
        } else {
            avg_bp as int
        },
{
    if avg_bp != 0 {
        return avg_bp;
    }
    let ib = input_format.as_bytes();
    let ob = output_format.as_bytes();
    let i_png = is3(ib, 0x50, 0x4e, 0x47);
    let i_jpeg = is4(ib, 0x4a, 0x50, 0x45, 0x47);
    let o_webp = is4(ob, 0x57, 0x65, 0x62, 0x50);
    let o_png = is3(ob, 0x50, 0x4e, 0x47);
    let o_jpeg = is4(ob, 0x4a, 0x50, 0x45, 0x47);
    if i_png && o_webp {
        7000
    } else if i_jpeg && o_webp {
        2500
    } else if i_png && o_png {
        1500
    } else if i_jpeg && o_jpeg {
        2000
    } else {
        1000
    }
}

} // verus!


