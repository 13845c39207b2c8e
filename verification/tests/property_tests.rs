use qrai_scanner::decode_only;
use qrai_scanner::decoder::convert_rqrr_ec;
use qrai_scanner::decoder::multi_decode;
use qrai_scanner::decoder::modules_for_version;
use qrai_scanner::decoder::search_tiers;
use qrai_scanner::error::QraiError;
use qrai_scanner::raster::load_raster;
use qrai_scanner::raster::RasterImage;
use qrai_scanner::scorer::calculate_fast_score;
use qrai_scanner::scorer::calculate_score;
use qrai_scanner::summary;
use qrai_scanner::types::ErrorCorrectionLevel;
use qrai_scanner::types::StressResults;
use qrai_scanner::validate;

fn create_test_qr() -> Vec<u8> {
    let code = qrcode::QrCode::new(b"https://example.com").unwrap();
    let img = code.render::<image::Luma<u8>>().build();

    let mut buf = Vec::new();
    let dyn_img = image::DynamicImage::ImageLuma8(img);
    dyn_img
        .write_to(&mut std::io::Cursor::new(&mut buf), image::ImageFormat::Png)
        .unwrap();
    buf
}

fn blank_png(width: u32, height: u32) -> Vec<u8> {
    let blank = image::DynamicImage::new_luma8(width, height);
    let mut buf = Vec::new();
    blank
        .write_to(&mut std::io::Cursor::new(&mut buf), image::ImageFormat::Png)
        .unwrap();
    buf
}

#[test]
fn otsu_uniform_image_unchanged() {
    for value in [0u8, 1, 77, 128, 254, 255] {
        let img = RasterImage::from_raw(10, 8, 1, vec![value; 80]).unwrap();
        let out = img.apply_otsu_threshold();
        assert_eq!(out.width(), 10);
        assert_eq!(out.height(), 8);
        assert_eq!(out.data(), img.data(), "uniform value {value} must pass through");
    }
}

#[test]
fn otsu_binarizes_non_uniform_image() {
    let mut data = vec![30u8; 64];
    for i in 32..64 {
        data[i] = 220;
    }
    let img = RasterImage::from_raw(8, 8, 1, data).unwrap();
    let out = img.apply_otsu_threshold();
    for (i, &v) in out.data().iter().enumerate() {
        assert!(v == 0 || v == 255, "pixel {i} is {v}, not binary");
    }
    assert_eq!(out.data()[0], 0);
    assert_eq!(out.data()[63], 255);
}

#[test]
fn invert_is_involution() {
    let data: Vec<u8> = (0..100).map(|i| (i * 37 % 256) as u8).collect();
    let img = RasterImage::from_raw(10, 10, 1, data.clone()).unwrap();
    let twice = img.invert_image().invert_image();
    assert_eq!(twice.data().as_slice(), data.as_slice());
}

#[test]
fn invert_flips_each_pixel() {
    let img = RasterImage::from_raw(2, 2, 1, vec![0, 100, 200, 255]).unwrap();
    let inv = img.invert_image();
    assert_eq!(inv.data().as_slice(), &[255, 155, 55, 0]);
}

#[test]
fn score_monotonic_flag_flip() {
    // Flipping any single stress flag from false to true never decreases
    // the score, in either profile.
    let base = StressResults {
        original: true,
        downscale_50: false,
        downscale_25: true,
        blur_light: false,
        blur_medium: false,
        low_contrast: true,
    };
    for flag in 0..6 {
        let mut flipped = base.clone();
        match flag {
            0 => flipped.original = true,
            1 => flipped.downscale_50 = true,
            2 => flipped.downscale_25 = true,
            3 => flipped.blur_light = true,
            4 => flipped.blur_medium = true,
            _ => flipped.low_contrast = true,
        }
        for engines in [0usize, 1, 2] {
            assert!(calculate_score(&flipped, engines) >= calculate_score(&base, engines));
            assert!(
                calculate_fast_score(&flipped, engines) >= calculate_fast_score(&base, engines)
            );
        }
    }
}

#[test]
fn fast_score_exact_values() {
    let all = StressResults {
        original: true,
        downscale_50: true,
        downscale_25: false,
        blur_light: true,
        blur_medium: false,
        low_contrast: false,
    };
    // 20 + 15 + 15 + 15 = 65 of 65.
    assert_eq!(calculate_fast_score(&all, 2), 100);
    let only_original = StressResults {
        original: true,
        downscale_50: false,
        downscale_25: false,
        blur_light: false,
        blur_medium: false,
        low_contrast: false,
    };
    // 20 * 100 / 65 = 30.
    assert_eq!(calculate_fast_score(&only_original, 1), 30);
    assert_eq!(
        calculate_fast_score(&StressResults::default(), 0),
        0
    );
}

#[test]
fn decode_only_matches_validate_content() {
    let qr_bytes = create_test_qr();
    let decoded = decode_only(&qr_bytes).unwrap();
    let validated = validate(&qr_bytes).unwrap();
    assert_eq!(Some(decoded.content), validated.content);
}

#[test]
fn clean_qr_decodes_at_tier_one() {
    let qr_bytes = create_test_qr();
    let img = load_raster(&qr_bytes).unwrap();
    let (outcome, trace) = search_tiers(&img, 64);

    assert!(outcome.is_some());
    assert_eq!(trace.success_tier, 1);
    assert!(!trace.tier2_tried);
    assert!(!trace.tier3_tried);
    assert!(!trace.tier4_tried);

    let result = validate(&qr_bytes).unwrap();
    assert!(result.score >= 50);
}

#[test]
fn blank_raster_fails_every_tier() {
    let bytes = blank_png(100, 100);
    let img = load_raster(&bytes).unwrap();
    let (outcome, trace) = search_tiers(&img, 16);

    assert!(outcome.is_none());
    assert_eq!(trace.success_tier, 0);
    assert!(trace.tier1_tried);
    assert!(trace.tier2_tried);
    assert!(trace.tier3_tried);
    assert!(trace.tier4_tried);

    let result = validate(&bytes);
    assert!(matches!(result, Err(QraiError::DecodeFailed)));
}

#[test]
fn malformed_bytes_yield_image_load_error() {
    let garbage: Vec<u8> = (0..64).map(|i| (i * 31 % 256) as u8).collect();
    let result = validate(&garbage);
    assert!(matches!(result, Err(QraiError::ImageLoad(_))));
    let result = decode_only(&garbage);
    assert!(matches!(result, Err(QraiError::ImageLoad(_))));
}

#[test]
fn module_count_formula() {
    for v in 1u8..=40 {
        assert_eq!(modules_for_version(v) as u32, 17 + 4 * (v as u32));
    }
    assert_eq!(modules_for_version(0), 0);
    assert_eq!(modules_for_version(41), 0);
    assert_eq!(modules_for_version(1), 21);
    assert_eq!(modules_for_version(7), 45);
    assert_eq!(modules_for_version(40), 177);
}

#[test]
fn merge_policy_on_clean_qr() {
    // The version is known exactly when rqrr stands among the succeeding
    // engines; rxing alone reports no metadata.
    let qr_bytes = create_test_qr();
    let result = multi_decode(&qr_bytes).unwrap();
    let meta = result.metadata.unwrap();
    if result.decoders_success.iter().any(|d| d == "rqrr") {
        assert!((1..=40).contains(&meta.version));
        assert!(meta.modules > 0);
    } else {
        assert_eq!(meta.version, 0);
        assert_eq!(meta.modules, 0);
        assert_eq!(meta.error_correction, ErrorCorrectionLevel::M);
    }
}

#[test]
fn convert_rqrr_ec_values() {
    assert_eq!(convert_rqrr_ec(0), ErrorCorrectionLevel::M);
    assert_eq!(convert_rqrr_ec(1), ErrorCorrectionLevel::L);
    assert_eq!(convert_rqrr_ec(2), ErrorCorrectionLevel::H);
    assert_eq!(convert_rqrr_ec(3), ErrorCorrectionLevel::Q);
    assert_eq!(convert_rqrr_ec(9), ErrorCorrectionLevel::M);
}

#[test]
fn blur_changes_pixels() {
    // A single bright pixel spreads under Gaussian blur: the wrapper cannot
    // be handing its input back unchanged.
    let mut data = vec![0u8; 15 * 15];
    data[7 * 15 + 7] = 255;
    let img = RasterImage::from_raw(15, 15, 1, data).unwrap();
    let blurred = img.apply_blur(20);
    assert_eq!(blurred.width(), 15);
    assert_eq!(blurred.height(), 15);
    assert!(blurred.data()[7 * 15 + 7] < 255);
}

#[test]
fn thumbnail_fits_bounds() {
    let img = RasterImage::from_raw(100, 50, 1, vec![9u8; 5000]).unwrap();
    let small = img.thumbnail_resize(25);
    assert!(small.width() <= 25);
    assert!(small.height() <= 25);
    assert!(small.width() >= 1 && small.height() >= 1);
    assert_eq!(
        small.data().len(),
        (small.width() * small.height()) as usize
    );
}

#[test]
fn enhance_contrast_stretches_range() {
    let img = RasterImage::from_raw(2, 2, 1, vec![100, 120, 140, 160]).unwrap();
    let out = img.enhance_contrast();
    assert_eq!(out.data().as_slice(), &[0, 85, 170, 255]);
}

#[test]
fn high_contrast_threshold_is_binary() {
    let img = RasterImage::from_raw(2, 2, 1, vec![100, 120, 140, 160]).unwrap();
    let out = img.apply_high_contrast_threshold();
    assert_eq!(out.data().as_slice(), &[0, 0, 255, 255]);
}

#[test]
fn grayscale_of_rgb_uses_luminance() {
    // One red, one green, one blue and one white pixel.
    let data = vec![255, 0, 0, 0, 255, 0, 0, 0, 255, 255, 255, 255];
    let img = RasterImage::from_raw(2, 2, 3, data).unwrap();
    let gray = img.to_gray();
    // Integer BT.709: (2126 r + 7152 g + 722 b) / 10000.
    assert_eq!(gray.data().as_slice(), &[54, 182, 18, 255]);
}

#[test]
fn from_raw_rejects_bad_buffers() {
    assert!(matches!(
        RasterImage::from_raw(2, 2, 1, vec![0; 3]),
        Err(QraiError::BufferMismatch { .. })
    ));
    // Any rectangle over the pixel-count cap is rejected, whatever its shape.
    assert!(matches!(
        RasterImage::from_raw(20000, 20000, 1, vec![]),
        Err(QraiError::DimensionsTooLarge { .. })
    ));
    assert!(RasterImage::from_raw(0, 2, 1, vec![]).is_err());
    assert!(RasterImage::from_raw(2, 2, 2, vec![0; 8]).is_err());
}

#[test]
fn from_raw_accepts_extreme_aspect_ratios() {
    // The bound is on the pixel count, not on a side: a long panorama whose
    // area is small enough passes.
    let img = RasterImage::from_raw(12000, 500, 1, vec![7u8; 6_000_000]).unwrap();
    assert_eq!(img.width(), 12000);
    assert_eq!(img.height(), 500);
}

#[test]
fn summary_helpers() {
    assert_eq!(summary::get_rating(85), "Excellent");
    assert_eq!(summary::get_rating(70), "Good");
    assert_eq!(summary::get_rating(50), "Fair");
    assert_eq!(summary::get_rating(10), "Poor");
    assert_eq!(summary::ec_to_string(ErrorCorrectionLevel::Q), "Q");
    assert_eq!(
        summary::get_ec_description(ErrorCorrectionLevel::L),
        "~7% recovery"
    );
    let (_, _, label) = summary::get_score_style(95);
    assert!(label.starts_with("EXCELLENT"));
    let (_, _, label) = summary::get_score_style(5);
    assert!(label.starts_with("POOR"));
}

#[test]
fn summarize_invalid_image() {
    let s = summary::summarize(b"definitely not an image");
    assert!(!s.valid);
    assert_eq!(s.score, 0);
    assert_eq!(s.rating, "Invalid");
    assert_eq!(s.error_correction, "N/A");
    assert!(!s.production_ready);
    assert!(s.content.is_empty());
}

#[test]
fn summarize_clean_qr() {
    let qr_bytes = create_test_qr();
    let s = summary::summarize(&qr_bytes);
    assert!(s.valid);
    assert!(s.score >= 50);
    assert_eq!(s.content, "https://example.com");
    assert_eq!(s.production_ready, s.score >= 70);
}

#[test]
fn score_and_threshold_on_garbage() {
    assert_eq!(summary::score(b"junk bytes"), 0);
    assert!(!summary::is_production_ready(b"junk bytes"));
    assert!(summary::is_valid(b"junk bytes").is_none());
    assert!(summary::passes_threshold(b"junk bytes", 0));
    assert!(!summary::passes_threshold(b"junk bytes", 1));
}

#[test]
fn flattened_validate_matches_core() {
    let qr_bytes = create_test_qr();
    let flat = summary::validate(&qr_bytes).unwrap();
    let core = validate(&qr_bytes).unwrap();
    assert_eq!(flat.score, core.score);
    assert_eq!(flat.decodable, core.decodable);
    assert_eq!(flat.content, core.content);
    let meta = core.metadata.unwrap();
    assert_eq!(flat.version, Some(meta.version));
    assert_eq!(flat.modules, Some(meta.modules));
    assert_eq!(flat.stress_original, core.stress_results.original);
}
