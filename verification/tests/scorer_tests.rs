use qrai_scanner::raster::load_raster;
use qrai_scanner::scorer::calculate_score;
use qrai_scanner::scorer::downscale;
use qrai_scanner::scorer::run_fast_stress_tests;
use qrai_scanner::scorer::run_stress_tests_on_image;
use qrai_scanner::types::StressResults;

fn create_test_qr() -> Vec<u8> {
    let code = qrcode::QrCode::new(b"https://example.com").unwrap();
    let img = code.render::<image::Luma<u8>>().build();

    let mut buf = Vec::new();
    let dyn_img = image::DynamicImage::ImageLuma8(img);
    dyn_img
        .write_to(&mut std::io::Cursor::new(&mut buf), image::ImageFormat::Png)
        .unwrap();
    buf
}

#[test]
fn score_all_pass_is_100() {
    let stress = StressResults {
        original: true,
        downscale_50: true,
        downscale_25: true,
        blur_light: true,
        blur_medium: true,
        low_contrast: true,
    };
    let score = calculate_score(&stress, 2);
    assert_eq!(score, 100);
}

#[test]
fn score_all_fail_is_zero() {
    let stress = StressResults {
        original: false,
        downscale_50: false,
        downscale_25: false,
        blur_light: false,
        blur_medium: false,
        low_contrast: false,
    };
    let score = calculate_score(&stress, 0);
    assert_eq!(score, 0);
}

#[test]
fn score_only_original_is_low() {
    let stress = StressResults {
        original: true,
        downscale_50: false,
        downscale_25: false,
        blur_light: false,
        blur_medium: false,
        low_contrast: false,
    };
    let score = calculate_score(&stress, 1);
    assert!(score < 25);
    assert!(score > 15);
}

#[test]
fn score_without_multi_decoder_bonus() {
    let stress = StressResults {
        original: true,
        downscale_50: true,
        downscale_25: true,
        blur_light: true,
        blur_medium: true,
        low_contrast: true,
    };
    let score = calculate_score(&stress, 1);
    assert!(score > 80);
    assert!(score < 100);
}

#[test]
fn stress_test_clean_qr_passes_most() {
    let qr_bytes = create_test_qr();
    let img = load_raster(&qr_bytes).unwrap();
    let stress = run_stress_tests_on_image(&img).unwrap();

    assert!(stress.original);
    assert!(stress.downscale_50);
    assert!(stress.blur_light);
}

#[test]
fn fast_stress_test_runs_subset() {
    let qr_bytes = create_test_qr();
    let img = load_raster(&qr_bytes).unwrap();
    let stress = run_fast_stress_tests(&img).unwrap();

    assert!(stress.original);
    assert!(!stress.downscale_25);
    assert!(!stress.blur_medium);
    assert!(!stress.low_contrast);
}

#[test]
fn downscale_reduces_dimensions() {
    let qr_bytes = create_test_qr();
    let img = load_raster(&qr_bytes).unwrap();
    let orig_w = img.width();
    let orig_h = img.height();

    let scaled = downscale(&img, 50);

    assert!(scaled.width() < orig_w);
    assert!(scaled.height() < orig_h);
    assert_eq!(scaled.width(), orig_w / 2);
    assert_eq!(scaled.height(), orig_h / 2);
}

#[test]
fn parallel_stress_tests_consistent() {
    let qr_bytes = create_test_qr();
    let img = load_raster(&qr_bytes).unwrap();

    let stress1 = run_stress_tests_on_image(&img).unwrap();
    let stress2 = run_stress_tests_on_image(&img).unwrap();

    assert_eq!(stress1.original, stress2.original);
    assert_eq!(stress1.downscale_50, stress2.downscale_50);
    assert_eq!(stress1.blur_light, stress2.blur_light);
}
