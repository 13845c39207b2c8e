//! Flattened result types and convenience helpers for thin bindings, plus
//! the human-readable presentation helpers.

use vstd::prelude::*;

use crate::error::QraiError;
use crate::types::ErrorCorrectionLevel;

verus! {

/// QR code validation result, flattened to scalar fields.
#[derive(Debug, Clone)]
pub struct ValidationResult {
    /// Scannability score from 0-100.
    pub score: u8,
    /// Whether the QR code was successfully decoded.
    pub decodable: bool,
    /// Decoded content of the QR code.
    pub content: Option<String>,
    /// QR code version (1-40).
    pub version: Option<u8>,
    /// Error correction level (L, M, Q, H).
    pub error_correction: Option<String>,
    /// Number of modules in the QR code.
    pub modules: Option<u8>,
    /// List of decoders that successfully decoded the QR.
    pub decoders_success: Vec<String>,
    /// Whether the original image was decodable.
    pub stress_original: bool,
    /// Whether the 50% downscaled image was decodable.
    pub stress_downscale_50: bool,
    /// Whether the 25% downscaled image was decodable.
    pub stress_downscale_25: bool,
    /// Whether the lightly blurred image was decodable.
    pub stress_blur_light: bool,
    /// Whether the medium blurred image was decodable.
    pub stress_blur_medium: bool,
    /// Whether the low contrast image was decodable.
    pub stress_low_contrast: bool,
}

/// Simple decode result (without stress tests), flattened.
#[derive(Debug, Clone)]
pub struct DecodeResult {
    /// Decoded content of the QR code.
    pub content: String,
    /// QR code version (1-40).
    pub version: Option<u8>,
    /// Error correction level (L, M, Q, H).
    pub error_correction: Option<String>,
    /// Number of modules in the QR code.
    pub modules: Option<u8>,
}

/// The single-letter code of an error correction level.
pub open spec fn ec_letter(ec: ErrorCorrectionLevel) -> Seq<char> {
    match ec {
        ErrorCorrectionLevel::L => "L"@,
        ErrorCorrectionLevel::M => "M"@,
        ErrorCorrectionLevel::Q => "Q"@,
        ErrorCorrectionLevel::H => "H"@,
    }
}

/// Single-letter code of an error correction level, as an owned string.
pub fn ec_to_string(ec: ErrorCorrectionLevel) -> (r: String)
    ensures
        r@ == ec_letter(ec),
{
    ec.as_letter()
}

/// Flatten a nested validation result to the scalar form.
pub fn flatten_validation(v: crate::types::ValidationResult) -> (r: ValidationResult)
    requires
        v.wf(),
    ensures
        r.score == v.score,
        r.score <= 100,
        r.decodable == v.decodable,
        r.content == v.content,
        v.metadata matches Some(m) ==> {
            &&& r.version == Some(m.version)
            &&& r.modules == Some(m.modules)
            &&& (r.error_correction matches Some(s) && s@ == ec_letter(m.error_correction))
            &&& r.decoders_success@ == m.decoders_success@
        },
        v.metadata is None ==> {
            &&& r.version is None
            &&& r.error_correction is None
            &&& r.modules is None
            &&& r.decoders_success@.len() == 0
        },
        r.stress_original == v.stress_results.original,
        r.stress_downscale_50 == v.stress_results.downscale_50,
        r.stress_downscale_25 == v.stress_results.downscale_25,
        r.stress_blur_light == v.stress_results.blur_light,
        r.stress_blur_medium == v.stress_results.blur_medium,
        r.stress_low_contrast == v.stress_results.low_contrast,
{
    let (version, error_correction, modules, decoders_success) = match v.metadata {
        Some(m) => (
            Some(m.version),
            Some(ec_to_string(m.error_correction)),
            Some(m.modules),
            m.decoders_success,
        ),
        None => (None, None, None, Vec::new()),
    };
    ValidationResult {
        score: v.score,
        decodable: v.decodable,
        content: v.content,
        version,
        error_correction,
        modules,
        decoders_success,
        stress_original: v.stress_results.original,
        stress_downscale_50: v.stress_results.downscale_50,
        stress_downscale_25: v.stress_results.downscale_25,
        stress_blur_light: v.stress_results.blur_light,
        stress_blur_medium: v.stress_results.blur_medium,
        stress_low_contrast: v.stress_results.low_contrast,
    }
}

/// Validate a QR code image and return the flattened result.
pub fn validate(image_buffer: &[u8]) -> (r: Result<ValidationResult, QraiError>)
    ensures
        r matches Ok(f) ==> f.decodable && f.score <= 100,
        r is Ok ==> crate::raster::image_ok(image_buffer@),
        (r matches Err(e) && (e is ImageLoad || e is DimensionsTooLarge)) <==> !crate::raster::image_ok(
            image_buffer@,
        ),
        r matches Err(e) ==> (e is ImageLoad || e is DimensionsTooLarge || e is DecodeFailed),
{
    let v = match crate::validate(image_buffer) {
        Ok(v) => v,
        Err(e) => {
            return Err(e);
        },
    };
    Ok(flatten_validation(v))
}

/// Fast decode without stress tests, flattened.
pub fn decode(image_buffer: &[u8]) -> (r: Result<DecodeResult, QraiError>)
    ensures
        r is Ok ==> crate::raster::image_ok(image_buffer@),
        (r matches Err(e) && (e is ImageLoad || e is DimensionsTooLarge)) <==> !crate::raster::image_ok(
            image_buffer@,
        ),
        r matches Err(e) ==> (e is ImageLoad || e is DimensionsTooLarge || e is DecodeFailed),
        r matches Ok(d) ==> (d.version matches Some(v) ==> v <= 40),
{
    let result = match crate::decode_only(image_buffer) {
        Ok(d) => d,
        Err(e) => {
            return Err(e);
        },
    };
    let (version, error_correction, modules) = match result.metadata {
        Some(m) => (Some(m.version), Some(ec_to_string(m.error_correction)), Some(m.modules)),
        None => (None, None, None),
    };
    Ok(DecodeResult { content: result.content, version, error_correction, modules })
}

/// Fast validation with the reduced stress battery, flattened.
pub fn validate_fast(image_buffer: &[u8]) -> (r: Result<ValidationResult, QraiError>)
    ensures
        r matches Ok(f) ==> f.decodable && f.score <= 100,
        r matches Ok(f) ==> !f.stress_downscale_25 && !f.stress_blur_medium
            && !f.stress_low_contrast,
        r is Ok ==> crate::raster::image_ok(image_buffer@),
        (r matches Err(e) && (e is ImageLoad || e is DimensionsTooLarge)) <==> !crate::raster::image_ok(
            image_buffer@,
        ),
        r matches Err(e) ==> (e is ImageLoad || e is DimensionsTooLarge || e is DecodeFailed),
{
    let v = match crate::validate_fast(image_buffer) {
        Ok(v) => v,
        Err(e) => {
            return Err(e);
        },
    };
    Ok(flatten_validation(v))
}

/// Only the scannability score of a full validation.
pub fn validate_score_only(image_buffer: &[u8]) -> (r: Result<u8, QraiError>)
    ensures
        r matches Ok(s) ==> s <= 100,
        r is Ok ==> crate::raster::image_ok(image_buffer@),
        (r matches Err(e) && (e is ImageLoad || e is DimensionsTooLarge)) <==> !crate::raster::image_ok(
            image_buffer@,
        ),
        r matches Err(e) ==> (e is ImageLoad || e is DimensionsTooLarge || e is DecodeFailed),
{
    match crate::validate(image_buffer) {
        Ok(v) => Ok(v.score),
        Err(e) => Err(e),
    }
}

/// Only the scannability score of a fast validation.
pub fn validate_score_fast(image_buffer: &[u8]) -> (r: Result<u8, QraiError>)
    ensures
        r matches Ok(s) ==> s <= 100,
        r is Ok ==> crate::raster::image_ok(image_buffer@),
        (r matches Err(e) && (e is ImageLoad || e is DimensionsTooLarge)) <==> !crate::raster::image_ok(
            image_buffer@,
        ),
        r matches Err(e) ==> (e is ImageLoad || e is DimensionsTooLarge || e is DecodeFailed),
{
    match crate::validate_fast(image_buffer) {
        Ok(v) => Ok(v.score),
        Err(e) => Err(e),
    }
}

/// Simple summary of a QR validation.
#[derive(Debug, Clone)]
pub struct QrSummary {
    /// Whether the QR is valid and decodable.
    pub valid: bool,
    /// Scannability score (0-100).
    pub score: u8,
    /// Decoded content (empty if invalid).
    pub content: String,
    /// Error correction level (L/M/Q/H or "N/A").
    pub error_correction: String,
    /// Human-readable rating (Excellent/Good/Fair/Poor).
    pub rating: String,
    /// Whether this QR is production-ready (score at least 70).
    pub production_ready: bool,
}

/// The human-readable rating a score earns.
pub open spec fn spec_rating(score: u8) -> Seq<char> {
    if 80 <= score <= 100 {
        "Excellent"@
    } else if 60 <= score <= 79 {
        "Good"@
    } else if 40 <= score <= 59 {
        "Fair"@
    } else {
        "Poor"@
    }
}

/// Human-readable rating for a score.
pub fn get_rating(score: u8) -> (r: String)
    ensures
        r@ == spec_rating(score),
{
    if 80 <= score && score <= 100 {
        String::from_str("Excellent")
    } else if 60 <= score && score <= 79 {
        String::from_str("Good")
    } else if 40 <= score && score <= 59 {
        String::from_str("Fair")
    } else {
        String::from_str("Poor")
    }
}

/// Whether a score meets a minimum threshold.
pub fn meets_threshold(score: u8, min_score: u8) -> (r: bool)
    ensures
        r == (score >= min_score),
{
    score >= min_score
}

/// Check whether a QR code is valid, returning its content.
pub fn is_valid(image_buffer: &[u8]) -> (r: Option<String>)
    ensures
        r is Some ==> crate::raster::image_ok(image_buffer@),
{
    match crate::decode_only(image_buffer) {
        Ok(d) => Some(d.content),
        Err(_) => None,
    }
}

/// The scannability score, or 0 when the image does not validate.
pub fn score(image_buffer: &[u8]) -> (r: u8)
    ensures
        r <= 100,
        !crate::raster::image_ok(image_buffer@) ==> r == 0,
{
    match crate::validate(image_buffer) {
        Ok(v) => v.score,
        Err(_) => 0,
    }
}

/// Whether the QR meets a minimum score threshold.
pub fn passes_threshold(image_buffer: &[u8], min_score: u8) -> (r: bool)
    ensures
        !crate::raster::image_ok(image_buffer@) ==> r == (min_score == 0),
{
    meets_threshold(score(image_buffer), min_score)
}

/// Whether the QR is production-ready (score at least 70).
pub fn is_production_ready(image_buffer: &[u8]) -> (r: bool)
    ensures
        !crate::raster::image_ok(image_buffer@) ==> !r,
{
    passes_threshold(image_buffer, 70)
}

/// Summarize a QR validation: rating, production readiness, content and
/// error correction at a glance. An image that does not validate summarizes
/// as invalid with score 0.
pub fn summarize(image_buffer: &[u8]) -> (r: QrSummary)
    ensures
        r.score <= 100,
        r.production_ready == (r.score >= 70),
        !crate::raster::image_ok(image_buffer@) ==> !r.valid,
        r.valid ==> crate::raster::image_ok(image_buffer@),
        r.valid ==> r.rating@ == spec_rating(r.score),
        r.valid ==> {
            ||| r.error_correction@ == "L"@
            ||| r.error_correction@ == "M"@
            ||| r.error_correction@ == "Q"@
            ||| r.error_correction@ == "H"@
            ||| r.error_correction@ == "N/A"@
        },
        !r.valid ==> {
            &&& r.score == 0
            &&& r.rating@ == "Invalid"@
            &&& r.content@.len() == 0
            &&& r.error_correction@ == "N/A"@
        },
{
    match crate::validate(image_buffer) {
        Ok(result) => {
            let score_val = result.score;
            let rating = get_rating(score_val);
            let content = match result.content {
                Some(c) => c,
                None => String::new(),
            };
            let error_correction = match result.metadata {
                Some(m) => ec_to_string(m.error_correction),
                None => String::from_str("N/A"),
            };
            QrSummary {
                valid: result.decodable,
                score: score_val,
                content,
                error_correction,
                rating,
                production_ready: meets_threshold(score_val, 70),
            }
        },
        Err(_) => QrSummary {
            valid: false,
            score: 0,
            content: String::new(),
            error_correction: String::from_str("N/A"),
            rating: String::from_str("Invalid"),
            production_ready: false,
        },
    }
}

/// The style a score is shown in: ANSI color, emoji and label, each fixed
/// per score band — green at 80 and above, yellow down to 60, red below.
pub fn get_score_style(score: u8) -> (r: (&'static str, &'static str, &'static str))
    ensures
        90 <= score <= 100 ==> r.0@ == "\x1b[32m"@ && r.1@ == "\u{1F31F}"@ && r.2@
            == "EXCELLENT - Highly scannable in any condition"@,
        80 <= score <= 89 ==> r.0@ == "\x1b[32m"@ && r.1@ == "\u{2728}"@ && r.2@
            == "GREAT - Very reliable scanning"@,
        70 <= score <= 79 ==> r.0@ == "\x1b[33m"@ && r.1@ == "\u{1F44D}"@ && r.2@
            == "GOOD - Should scan in most conditions"@,
        60 <= score <= 69 ==> r.0@ == "\x1b[33m"@ && r.1@ == "\u{26A0}\u{FE0F} "@ && r.2@
            == "FAIR - May have issues in poor conditions"@,
        40 <= score <= 59 ==> r.0@ == "\x1b[31m"@ && r.1@ == "\u{26A1}"@ && r.2@
            == "WEAK - Scanning may be unreliable"@,
        score < 40 || score > 100 ==> r.0@ == "\x1b[31m"@ && r.1@ == "\u{274C}"@ && r.2@
            == "POOR - High risk of scan failures"@,
{
    if 90 <= score && score <= 100 {
        ("\x1b[32m", "\u{1F31F}", "EXCELLENT - Highly scannable in any condition")
    } else if 80 <= score && score <= 89 {
        ("\x1b[32m", "\u{2728}", "GREAT - Very reliable scanning")
    } else if 70 <= score && score <= 79 {
        ("\x1b[33m", "\u{1F44D}", "GOOD - Should scan in most conditions")
    } else if 60 <= score && score <= 69 {
        ("\x1b[33m", "\u{26A0}\u{FE0F} ", "FAIR - May have issues in poor conditions")
    } else if 40 <= score && score <= 59 {
        ("\x1b[31m", "\u{26A1}", "WEAK - Scanning may be unreliable")
    } else {
        ("\x1b[31m", "\u{274C}", "POOR - High risk of scan failures")
    }
}

/// A short description of an error correction level's recovery capacity.
pub fn get_ec_description(ec: ErrorCorrectionLevel) -> (r: &'static str)
    ensures
        ec == ErrorCorrectionLevel::L ==> r@ == "~7% recovery"@,
        ec == ErrorCorrectionLevel::M ==> r@ == "~15% recovery"@,
        ec == ErrorCorrectionLevel::Q ==> r@ == "~25% recovery"@,
        ec == ErrorCorrectionLevel::H ==> r@ == "~30% recovery"@,
{
    match ec {
        ErrorCorrectionLevel::L => "~7% recovery",
        ErrorCorrectionLevel::M => "~15% recovery",
        ErrorCorrectionLevel::Q => "~25% recovery",
        ErrorCorrectionLevel::H => "~30% recovery",
    }
}

} // verus!
