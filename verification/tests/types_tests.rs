use qrai_scanner::types::ErrorCorrectionLevel;
use qrai_scanner::types::StressResults;

#[test]
fn stress_results_default_all_false() {
    let sr = StressResults::default();
    assert!(!sr.original);
    assert!(!sr.downscale_50);
    assert!(!sr.downscale_25);
    assert!(!sr.blur_light);
    assert!(!sr.blur_medium);
    assert!(!sr.low_contrast);
}

#[test]
fn error_correction_level_display() {
    assert_eq!(ErrorCorrectionLevel::L.as_letter(), "L");
    assert_eq!(ErrorCorrectionLevel::M.as_letter(), "M");
    assert_eq!(ErrorCorrectionLevel::Q.as_letter(), "Q");
    assert_eq!(ErrorCorrectionLevel::H.as_letter(), "H");
}

#[test]
fn error_correction_level_default_is_m() {
    assert_eq!(ErrorCorrectionLevel::default(), ErrorCorrectionLevel::M);
}
