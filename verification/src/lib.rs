//! QR code validation and scannability scoring.
//!
//! The library decodes a QR code image through a tiered search over image
//! preprocessing variants, then runs a stress battery of controlled
//! degradations and aggregates the outcomes into a 0-100 scannability score
//! predicting robustness to real-world degradation.

use vstd::prelude::*;

pub mod decoder;
pub mod error;
pub mod raster;
pub mod scorer;
pub mod summary;
pub mod types;

verus! {

use crate::decoder::multi_decode_image;
use crate::error::QraiError;
use crate::raster::image_ok;
use crate::raster::load_raster;
use crate::scorer::calculate_fast_score;
use crate::scorer::calculate_score;
use crate::scorer::run_fast_stress_tests;
use crate::scorer::run_stress_tests_on_image;
use crate::scorer::spec_fast_score;
use crate::scorer::spec_score;
use crate::types::DecodeResult;
use crate::types::MultiDecodeResult;
use crate::types::StressResults;
use crate::types::ValidationResult;

/// Assemble the final validation result from a successful decode outcome and
/// the stress results: the result is decodable, carries the decoded content
/// and metadata unchanged, and its score is the weighted stress score with
/// the engine-agreement bonus.
pub fn assemble_validation(outcome: MultiDecodeResult, stress: StressResults) -> (r:
    ValidationResult)
    requires
        outcome.wf(),
    ensures
        r.wf(),
        r.decodable,
        r.score as int == spec_score(stress, outcome.decoders_success@.len() as int),
        r.content == Some(outcome.content),
        r.metadata == outcome.metadata,
        r.stress_results == stress,
{
    let score = calculate_score(&stress, outcome.decoders_success.len());
    ValidationResult {
        score,
        decodable: true,
        content: Some(outcome.content),
        metadata: outcome.metadata,
        stress_results: stress,
    }
}

/// Assemble the fast-profile validation result: as assemble_validation, with
/// the reduced-battery score.
pub fn assemble_fast_validation(outcome: MultiDecodeResult, stress: StressResults) -> (r:
    ValidationResult)
    requires
        outcome.wf(),
    ensures
        r.wf(),
        r.decodable,
        r.score as int == spec_fast_score(stress, outcome.decoders_success@.len() as int),
        r.content == Some(outcome.content),
        r.metadata == outcome.metadata,
        r.stress_results == stress,
{
    let score = calculate_fast_score(&stress, outcome.decoders_success.len());
    ValidationResult {
        score,
        decodable: true,
        content: Some(outcome.content),
        metadata: outcome.metadata,
        stress_results: stress,
    }
}

/// Validate a QR code image and compute its scannability score: decode
/// through the tiered search, run the full stress battery, and aggregate.
///
/// Bytes that are not a recognizable raster yield `ImageLoad`; rasters
/// beyond the dimension limits yield `DimensionsTooLarge`; an image in which
/// no tier finds a QR code yields `DecodeFailed`. A validation never panics.
pub fn validate(image_bytes: &[u8]) -> (r: Result<ValidationResult, QraiError>)
    ensures
        r matches Ok(v) ==> {
            &&& v.wf()
            &&& v.decodable
            &&& v.content is Some
            &&& v.metadata is Some
            &&& image_ok(image_bytes@)
            &&& (v.metadata matches Some(m) ==> v.score as int == spec_score(
                v.stress_results,
                m.decoders_success@.len() as int,
            ))
        },
        (r matches Err(e) && (e is ImageLoad || e is DimensionsTooLarge)) <==> !image_ok(
            image_bytes@,
        ),
        r matches Err(e) ==> (e is ImageLoad || e is DimensionsTooLarge || e is DecodeFailed),
        crate::raster::loaded_rgb_of(image_bytes@) is None ==> (r matches Err(e)
            && e is ImageLoad),
{
    let img = match load_raster(image_bytes) {
        Ok(i) => i,
        Err(e) => {
            return Err(e);
        },
    };
    let outcome = match multi_decode_image(&img) {
        Ok(m) => m,
        Err(e) => {
            return Err(e);
        },
    };
    let stress = match run_stress_tests_on_image(&img) {
        Ok(s) => s,
        Err(e) => {
            return Err(e);
        },
    };
    Ok(assemble_validation(outcome, stress))
}

/// Decode without stress tests: for callers that only need the content and
/// metadata, not a score.
pub fn decode_only(image_bytes: &[u8]) -> (r: Result<DecodeResult, QraiError>)
    ensures
        r matches Ok(d) ==> d.wf() && d.metadata is Some && image_ok(image_bytes@),
        (r matches Err(e) && (e is ImageLoad || e is DimensionsTooLarge)) <==> !image_ok(
            image_bytes@,
        ),
        r matches Err(e) ==> (e is ImageLoad || e is DimensionsTooLarge || e is DecodeFailed),
        crate::raster::loaded_rgb_of(image_bytes@) is None ==> (r matches Err(e)
            && e is ImageLoad),
{
    let result = match crate::decoder::multi_decode(image_bytes) {
        Ok(m) => m,
        Err(e) => {
            return Err(e);
        },
    };
    Ok(DecodeResult { content: result.content, metadata: result.metadata })
}

/// Fast validation: the tiered decode plus the reduced stress battery, for
/// real-time feedback.
pub fn validate_fast(image_bytes: &[u8]) -> (r: Result<ValidationResult, QraiError>)
    ensures
        r matches Ok(v) ==> {
            &&& v.wf()
            &&& v.decodable
            &&& v.content is Some
            &&& v.metadata is Some
            &&& image_ok(image_bytes@)
            &&& !v.stress_results.downscale_25
            &&& !v.stress_results.blur_medium
            &&& !v.stress_results.low_contrast
            &&& (v.metadata matches Some(m) ==> v.score as int == spec_fast_score(
                v.stress_results,
                m.decoders_success@.len() as int,
            ))
        },
        (r matches Err(e) && (e is ImageLoad || e is DimensionsTooLarge)) <==> !image_ok(
            image_bytes@,
        ),
        r matches Err(e) ==> (e is ImageLoad || e is DimensionsTooLarge || e is DecodeFailed),
        crate::raster::loaded_rgb_of(image_bytes@) is None ==> (r matches Err(e)
            && e is ImageLoad),
{
    let img = match load_raster(image_bytes) {
        Ok(i) => i,
        Err(e) => {
            return Err(e);
        },
    };
    let outcome = match multi_decode_image(&img) {
        Ok(m) => m,
        Err(e) => {
            return Err(e);
        },
    };
    let stress = match run_fast_stress_tests(&img) {
        Ok(s) => s,
        Err(e) => {
            return Err(e);
        },
    };
    Ok(assemble_fast_validation(outcome, stress))
}

} // verus!
