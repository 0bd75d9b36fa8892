use imgcodec::error::CompressionError;
use imgcodec::formats::OutputFormat;
use imgcodec::output::{create_compression_stat, CompressionOutput};
use imgcodec::settings::{validate_settings, CompressionSettings, WebpEncodeParams, webp_encode_params};
use imgcodec::stats::{
    calculate_confidence, create_stat, create_stat_with_time, estimate_compression,
    get_size_range, size_reduction_basis_points,
};
use imgcodec::store::{
    quality_window, resolve_estimation, stat_from_request, query_from_request, resolve_prediction,
    GetEstimationRequest, HistoryStats, RecordStatRequest,
};
use imgcodec::stats::EstimationQuery;

#[test]
fn test_size_range() {
    assert_eq!(get_size_range(500_000), "small");
    assert_eq!(get_size_range(3_000_000), "medium");
    assert_eq!(get_size_range(10_000_000), "large");
}

#[test]
fn test_estimate_compression() {
    let settings = CompressionSettings::new(80, OutputFormat::WebP);
    let result = estimate_compression("png", "webp", 1000000, &settings);

    // Should be significant compression (> 50%)
    assert!(result.percent_bp as f64 / 100.0 > 50.0);
    // Should have reasonable confidence (> 0.5)
    assert!(result.confidence_pct as f64 / 100.0 > 0.5);
    // ratio == (100 - percent) / 100, exactly, in basis points
    assert_eq!(result.ratio_bp, 10000 - result.percent_bp);
}

#[test]
fn test_calculate_confidence() {
    assert_eq!(calculate_confidence(0, 0), 0);
    // 100 samples at variance 0.10 (10 hundredths): 90 * 100 / 110 = 81 > 80
    assert!(calculate_confidence(100, 10) as f64 / 100.0 > 0.8);
    // 3 samples: base 0.30 < 0.5
    assert!((calculate_confidence(3, 0) as f64) / 100.0 < 0.5);
}

#[test]
fn test_compression_output_creation() {
    let output_path = String::from("/tmp/test.webp");
    let output = CompressionOutput::new(output_path.clone(), 1000, 5, OutputFormat::WebP);

    assert_eq!(output.output_path, output_path);
    assert_eq!(output.original_size, 1000);
    assert_eq!(output.compressed_size, 5);
    // 995/1000 * 100 = 99.5% > 99.0%
    assert!(output.savings_bp as f64 / 100.0 > 99.0);
}

#[test]
fn test_settings_validation() {
    let settings = CompressionSettings::new(80, OutputFormat::WebP);
    assert!(validate_settings(&settings).is_ok());

    let mut invalid_settings = CompressionSettings::new(80, OutputFormat::WebP);
    invalid_settings.quality = 200; // Invalid quality
    assert!(validate_settings(&invalid_settings).is_err());
    assert!(matches!(
        validate_settings(&invalid_settings),
        Err(CompressionError::InvalidSettings(200))
    ));
    let mut zero = CompressionSettings::new(80, OutputFormat::WebP);
    zero.quality = 0;
    assert!(matches!(
        validate_settings(&zero),
        Err(CompressionError::InvalidSettings(0))
    ));
}

/// Zero original size gives zero savings, not a division by zero.
#[test]
fn test_savings_zero_original() {
    let output = CompressionOutput::new(String::from("/tmp/x.png"), 0, 5, OutputFormat::Png);
    assert_eq!(output.savings_bp, 0);
    assert_eq!(size_reduction_basis_points(0, 12345), 0);
}

/// Output that grew gives a negative reduction.
#[test]
fn test_savings_negative_when_output_grew() {
    assert_eq!(size_reduction_basis_points(1000, 1500), -5000);
    assert_eq!(size_reduction_basis_points(1000, 250), 7500);
}

/// Estimates stay inside [0%, 99%] with the exact ratio complement over
/// every supported pair and a spread of valid qualities.
#[test]
fn test_estimate_bounds_all_pairs() {
    let pairs = [
        ("png", "webp"),
        ("jpg", "webp"),
        ("jpeg", "webp"),
        ("png", "png"),
        ("jpg", "jpeg"),
        ("webp", "webp"),
        ("heic", "webp"),
        ("heif", "jpg"),
        ("heic", "png"),
        ("webp", "png"),
        ("gif", "webp"),
    ];
    for q in [1u8, 10, 50, 80, 90, 95, 100] {
        for (inf, outf) in pairs.iter() {
            let settings = CompressionSettings::new(q, OutputFormat::WebP);
            let r = estimate_compression(inf, outf, 1_000_000, &settings);
            assert!(r.percent_bp >= 0 && r.percent_bp <= 9900);
            assert_eq!(r.ratio_bp, 10000 - r.percent_bp);
        }
    }
}

/// PNG -> WebP at quality 80 with no history: the lossy heuristic band
/// (85% base, no quality delta) at confidence 0.9.
#[test]
fn test_png_webp_heuristic_at_q80() {
    let query = EstimationQuery {
        input_format: String::from("png"),
        output_format: String::from("webp"),
        original_size: 1_000_000,
        quality_setting: 80,
        lossy_mode: true,
    };
    let r = resolve_estimation(&query, None);
    assert_eq!(r.percent_bp, 8500);
    assert_eq!(r.ratio_bp, 1500);
    assert_eq!(r.confidence_pct, 90);
    assert_eq!(r.sample_count, 100);
}

/// Confidence is non-decreasing in sample count at fixed variance and
/// non-increasing in variance at fixed sample count.
#[test]
fn test_confidence_monotonicity_spots() {
    for v in [0u64, 10, 100, 5000] {
        let counts = [0u32, 1, 5, 6, 20, 21, 50, 51, 1000];
        for w in counts.windows(2) {
            assert!(calculate_confidence(w[0], v) <= calculate_confidence(w[1], v));
        }
    }
    for c in [0u32, 3, 10, 30, 100] {
        let variances = [0u64, 1, 10, 100, 1000, 100000];
        for w in variances.windows(2) {
            assert!(calculate_confidence(c, w[0]) >= calculate_confidence(c, w[1]));
        }
    }
    assert_eq!(calculate_confidence(0, 987654), 0);
}

/// A historical aggregate with samples wins over the heuristic.
#[test]
fn test_resolve_estimation_uses_history() {
    let query = EstimationQuery {
        input_format: String::from("png"),
        output_format: String::from("webp"),
        original_size: 2_000_000,
        quality_setting: 80,
        lossy_mode: true,
    };
    let history = HistoryStats {
        avg_reduction_bp: Some(7210),
        sample_count: 24,
        variance_centi: Some(0),
    };
    let r = resolve_estimation(&query, Some(history));
    assert_eq!(r.percent_bp, 7210);
    assert_eq!(r.ratio_bp, 10000 - 7210);
    assert_eq!(r.confidence_pct, 80); // 21..=50 samples, no variance damping
    assert_eq!(r.sample_count, 24);

    // zero samples fall back to the heuristic
    let empty = HistoryStats { avg_reduction_bp: None, sample_count: 0, variance_centi: None };
    let r = resolve_estimation(&query, Some(empty));
    assert_eq!(r.percent_bp, 8500);
}

#[test]
fn test_quality_window() {
    assert_eq!(quality_window(80), (70, 90));
    assert_eq!(quality_window(5), (1, 15));
    assert_eq!(quality_window(95), (85, 100));
    assert_eq!(quality_window(100), (90, 100));
}

#[test]
fn test_create_stat_fields() {
    let settings = CompressionSettings::new(85, OutputFormat::WebP);
    let stat = create_stat(
        String::from("png"),
        String::from("webp"),
        1024000,
        256000,
        &settings,
    );
    assert_eq!(stat.id, None);
    assert_eq!(stat.input_format, "png");
    assert_eq!(stat.output_format, "webp");
    assert_eq!(stat.input_size_range, "medium");
    assert_eq!(stat.quality_setting, 85);
    assert!(stat.lossy_mode);
    assert_eq!(stat.size_reduction_bp, 7500);
    assert_eq!(stat.original_size, 1024000);
    assert_eq!(stat.compressed_size, 256000);
    assert_eq!(stat.compression_time_ms, None);
    assert_eq!(stat.image_type, None);

    let lossless = CompressionSettings::new(95, OutputFormat::WebP);
    let stat = create_stat(String::from("png"), String::from("webp"), 10, 10, &lossless);
    assert!(!stat.lossy_mode);

    let timed = create_stat_with_time(
        String::from("jpg"),
        String::from("webp"),
        100,
        50,
        321,
        &settings,
        String::from("1.0"),
    );
    assert_eq!(timed.compression_time_ms, Some(321));
    assert_eq!(timed.size_reduction_bp, 5000);
}

#[test]
fn test_requests_to_query_and_stat() {
    let req = GetEstimationRequest {
        input_format: String::from("png"),
        output_format: String::from("webp"),
        original_size: 123,
        quality_setting: 77,
        lossy_mode: true,
    };
    let q = query_from_request(req);
    assert_eq!(q.input_format, "png");
    assert_eq!(q.output_format, "webp");
    assert_eq!(q.original_size, 123);
    assert_eq!(q.quality_setting, 77);
    assert!(q.lossy_mode);

    let req = RecordStatRequest {
        input_format: String::from("heic"),
        output_format: String::from("jpg"),
        original_size: 1000,
        compressed_size: 400,
        quality_setting: 92,
        lossy_mode: false,
    };
    let stat = stat_from_request(req);
    assert_eq!(stat.input_format, "heic");
    assert_eq!(stat.output_format, "jpg");
    assert_eq!(stat.size_reduction_bp, 6000);
    assert_eq!(stat.quality_setting, 92);
    assert!(!stat.lossy_mode); // 92 >= 90
}

#[test]
fn test_resolve_prediction_defaults() {
    assert_eq!(resolve_prediction(0, "PNG", "WebP"), 7000);
    assert_eq!(resolve_prediction(0, "JPEG", "WebP"), 2500);
    assert_eq!(resolve_prediction(0, "PNG", "PNG"), 1500);
    assert_eq!(resolve_prediction(0, "JPEG", "JPEG"), 2000);
    assert_eq!(resolve_prediction(0, "GIF", "WebP"), 1000);
    // case-sensitive: lower-case names miss the table
    assert_eq!(resolve_prediction(0, "png", "webp"), 1000);
    // stored data wins
    assert_eq!(resolve_prediction(4321, "PNG", "WebP"), 4321);
}

#[test]
fn test_webp_encode_params() {
    let lossless = webp_encode_params(&CompressionSettings::new(100, OutputFormat::WebP));
    assert!(matches!(
        lossless,
        WebpEncodeParams::Lossless { quality: 75, alpha_compression: false }
    ));
    let lossy = webp_encode_params(&CompressionSettings::new(60, OutputFormat::WebP));
    assert!(matches!(
        lossy,
        WebpEncodeParams::Lossy {
            quality: 60,
            method: 4,
            use_sharp_yuv: true,
            alpha_quality: 100,
            autofilter: true
        }
    ));
}

#[test]
fn test_create_compression_stat_from_output() {
    let output = CompressionOutput::new(String::from("/tmp/o.webp"), 1000, 250, OutputFormat::WebP);
    let settings = CompressionSettings::new(80, OutputFormat::WebP);
    let stat = create_compression_stat("png", &output, &settings);
    assert_eq!(stat.input_format, "png");
    assert_eq!(stat.output_format, "webp");
    assert_eq!(stat.size_reduction_bp, 7500);
}

/// Size-range buckets change exactly at 1 MB and 5 MB.
#[test]
fn test_size_range_boundaries() {
    assert_eq!(get_size_range(0), "small");
    assert_eq!(get_size_range(1_000_000), "small");
    assert_eq!(get_size_range(1_000_001), "medium");
    assert_eq!(get_size_range(5_000_000), "medium");
    assert_eq!(get_size_range(5_000_001), "large");
    assert_eq!(get_size_range(u64::MAX), "large");
}

/// PNG -> WebP switches to the near-lossless row at quality 90, and the
/// quality delta modulates each row exactly.
#[test]
fn test_png_webp_quality_rows() {
    let estimate = |q: u8| {
        let settings = CompressionSettings::new(q, OutputFormat::WebP);
        estimate_compression("png", "webp", 1_000_000, &settings)
    };
    // lossy row just below the boundary: 8500 - 9 * 50
    let r = estimate(89);
    assert_eq!(r.percent_bp, 8050);
    assert_eq!(r.confidence_pct, 90);
    // near-lossless row at the boundary: 4300 - 10 * 20
    let r = estimate(90);
    assert_eq!(r.percent_bp, 4100);
    assert_eq!(r.confidence_pct, 80);
    assert_eq!(r.sample_count, 100);
    // quality 100: 4300 - 20 * 20
    let r = estimate(100);
    assert_eq!(r.percent_bp, 3900);
    // very low quality clamps at 99%
    let r = estimate(1);
    assert_eq!(r.percent_bp, 9900);
    assert_eq!(r.ratio_bp, 100);
}

/// A quality-insensitive row ignores the quality entirely.
#[test]
fn test_quality_insensitive_rows() {
    for q in [1u8, 50, 80, 100] {
        let settings = CompressionSettings::new(q, OutputFormat::Png);
        let r = estimate_compression("png", "png", 500, &settings);
        assert_eq!(r.percent_bp, 1500);
        assert_eq!(r.confidence_pct, 90);
        let r = estimate_compression("heic", "png", 500, &settings);
        assert_eq!(r.percent_bp, 1000);
        assert_eq!(r.confidence_pct, 50);
        assert_eq!(r.sample_count, 10);
    }
}

/// Any growth at all is recorded as negative — growth is rounded up in
/// magnitude, so even a growth below one basis point keeps its sign.
#[test]
fn test_savings_sign_for_tiny_growth() {
    assert_eq!(size_reduction_basis_points(100000, 100001), -1);
    assert_eq!(size_reduction_basis_points(1000, 1001), -10);
    assert_eq!(size_reduction_basis_points(3, 4), -3334);
    // equal sizes are zero, not negative
    assert_eq!(size_reduction_basis_points(500, 500), 0);
    let grown = CompressionOutput::new(String::from("/tmp/g.png"), 100000, 100001, OutputFormat::Png);
    assert!(grown.savings_bp < 0);
}
