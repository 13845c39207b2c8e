//! Multi-engine QR decoding and the tiered decode search.
//!
//! Two opaque decode engines (rxing and rqrr) are tried on a single-channel
//! buffer behind trusted wrappers. The search escalates through four tiers of
//! preprocessing variants, each tier dispatched as a data-parallel
//! race-to-first-success; a tier runs only after every earlier tier failed.

use vstd::prelude::*;

use rayon::iter::IntoParallelRefIterator;
use rayon::iter::ParallelIterator;

use crate::error::QraiError;
use crate::raster::adjust_byte;
use crate::raster::MAX_DIMENSION;
use crate::raster::RasterImage;
use crate::types::ErrorCorrectionLevel;
use crate::types::MultiDecodeResult;
use crate::types::QrMetadata;

verus! {

/// Decode result from a single decode engine.
#[derive(Debug, Clone)]
pub struct SingleDecodeResult {
    pub content: String,
    pub version: Option<u8>,
    pub error_correction: Option<ErrorCorrectionLevel>,
}

/// Relies on rxing::helpers::detect_multiple_in_luma: it searches a
/// single-channel buffer of the given dimensions and returns the decoded
/// texts, or an error when no code is readable. Whether a given buffer
/// decodes is not modeled: nothing is promised of the outcome.
#[verifier::external_body]
fn rxing_detect(luma: &Vec<u8>, width: u32, height: u32) -> (r: Option<String>)
    requires
        luma@.len() == width * height * 1,
        width >= 1,
        height >= 1,
{
    let results = rxing::helpers::detect_multiple_in_luma(luma.clone(), width, height).ok()?;
    let first = results.first()?;
    Some(first.getText().to_string())
}

/// Relies on rqrr: PreparedImage::prepare, detect_grids and Grid::decode.
/// A successful decode carries a version that rqrr's Version::from_size only
/// ever builds in 1..=40, and an error-correction code of two bits (0..=3).
#[verifier::external_body]
fn rqrr_detect(luma: &Vec<u8>, width: u32, height: u32) -> (r: Option<(String, u8, u16)>)
    requires
        luma@.len() == width * height * 1,
        width >= 1,
        height >= 1,
    ensures
        r matches Some(t) ==> 1 <= t.1 <= 40 && t.2 <= 3,
{
    let img = image::GrayImage::from_raw(width, height, luma.clone())?;
    let mut prepared = rqrr::PreparedImage::prepare(img);
    let grids = prepared.detect_grids();
    let grid = grids.first()?;
    let (meta, content) = grid.decode().ok()?;
    Some((content, meta.version.0 as u8, meta.ecc_level))
}

/// Decode with the rxing engine alone. rxing does not expose version or
/// error-correction metadata, so both stay `None`.
pub fn decode_with_rxing(img: &RasterImage) -> (r: Result<SingleDecodeResult, QraiError>)
    requires
        img.wf(),
    ensures
        r matches Ok(s) ==> s.version is None && s.error_correction is None,
        r matches Err(e) ==> e is DecodeFailed,
{
    let gray = img.to_gray();
    match rxing_detect(&gray.data, gray.width, gray.height) {
        Some(content) => Ok(SingleDecodeResult { content, version: None, error_correction: None }),
        None => Err(QraiError::DecodeFailed),
    }
}

/// Decode with the rqrr engine alone; rqrr reports version and
/// error-correction level.
pub fn decode_with_rqrr(img: &RasterImage) -> (r: Result<SingleDecodeResult, QraiError>)
    requires
        img.wf(),
    ensures
        r matches Ok(s) ==> {
            &&& s.version matches Some(v) && 1 <= v <= 40
            &&& s.error_correction is Some
        },
        r matches Err(e) ==> e is DecodeFailed,
{
    let gray = img.to_gray();
    match rqrr_detect(&gray.data, gray.width, gray.height) {
        Some((content, version, ecc)) => Ok(
            SingleDecodeResult {
                content,
                version: Some(version),
                error_correction: Some(convert_rqrr_ec(ecc)),
            },
        ),
        None => Err(QraiError::DecodeFailed),
    }
}

/// Map rqrr's two-bit error-correction code to the level it denotes
/// (0 = M, 1 = L, 2 = H, 3 = Q), defaulting to M.
pub fn convert_rqrr_ec(level: u16) -> (r: ErrorCorrectionLevel)
    ensures
        level == 0 ==> r == ErrorCorrectionLevel::M,
        level == 1 ==> r == ErrorCorrectionLevel::L,
        level == 2 ==> r == ErrorCorrectionLevel::H,
        level == 3 ==> r == ErrorCorrectionLevel::Q,
        level > 3 ==> r == ErrorCorrectionLevel::M,
{
    match level {
        0 => ErrorCorrectionLevel::M,
        1 => ErrorCorrectionLevel::L,
        2 => ErrorCorrectionLevel::H,
        3 => ErrorCorrectionLevel::Q,
        _ => ErrorCorrectionLevel::M,
    }
}

/// The module count a QR version determines: `17 + 4 * v` for versions in
/// 1..=40, and 0 when the version is unknown.
pub open spec fn spec_modules(version: int) -> int {
    if 1 <= version <= 40 {
        17 + 4 * version
    } else {
        0
    }
}

/// Compute the module count of a version.
pub fn modules_for_version(version: u8) -> (r: u8)
    ensures
        r == spec_modules(version as int),
{
    if version >= 1 && version <= 40 {
        17 + 4 * version
    } else {
        0
    }
}

/// For every valid version v in 1..=40, the module count is 17 + 4v, which
/// lies between 21 and 177.
pub proof fn lemma_module_count(version: int)
    requires
        1 <= version <= 40,
    ensures
        spec_modules(version) == 17 + 4 * version,
        21 <= spec_modules(version) <= 177,
{
}

/// The names of the engines that succeeded, twice (the result lists them in
/// its metadata and beside it).
fn engine_names(both: bool) -> (r: (Vec<String>, Vec<String>))
    ensures
        r.0@ == r.1@,
        both ==> r.0@.len() == 2 && r.0@[0]@ == "rxing"@ && r.0@[1]@ == "rqrr"@,
        !both ==> r.0@.len() == 1 && r.0@[0]@ == "rxing"@,
        crate::types::engines_listed(r.0@),
        crate::types::engines_listed(r.1@),
{
    let rx = String::from_str("rxing");
    let mut d1: Vec<String> = Vec::new();
    let mut d2: Vec<String> = Vec::new();
    d1.push(rx.clone());
    d2.push(rx);
    if both {
        let rq = String::from_str("rqrr");
        d1.push(rq.clone());
        d2.push(rq);
    }
    proof {
        assert(d1@ =~= d2@);
    }
    (d1, d2)
}

/// Try both engines on one candidate image: rxing first; when it succeeds,
/// rqrr is also consulted for its richer version and error-correction
/// metadata; when rxing fails, rqrr alone decides.
pub fn try_decode_with_both(img: &RasterImage) -> (r: Result<MultiDecodeResult, QraiError>)
    requires
        img.wf(),
    ensures
        r matches Ok(m) ==> m.wf() && m.metadata is Some,
        r matches Err(e) ==> e is DecodeFailed,
{
    let gray = img.to_gray();
    if let Some(content) = rxing_detect(&gray.data, gray.width, gray.height) {
        let (version, error_correction, both) = match rqrr_detect(
            &gray.data,
            gray.width,
            gray.height,
        ) {
            Some((_, v, ecc)) => (v, convert_rqrr_ec(ecc), true),
            None => (0u8, ErrorCorrectionLevel::M, false),
        };
        let modules = modules_for_version(version);
        let (meta_names, names) = engine_names(both);
        proof {
            crate::types::lemma_engine_names_differ();
            assert(!both ==> !crate::types::rqrr_listed(meta_names@));
        }
        return Ok(
            MultiDecodeResult {
                content,
                metadata: Some(
                    QrMetadata { version, error_correction, modules, decoders_success: meta_names },
                ),
                decoders_success: names,
            },
        );
    }
    if let Some((content, version, ecc)) = rqrr_detect(&gray.data, gray.width, gray.height) {
        let modules = modules_for_version(version);
        let rq = String::from_str("rqrr");
        let mut d1: Vec<String> = Vec::new();
        let mut d2: Vec<String> = Vec::new();
        d1.push(rq.clone());
        d2.push(rq);
        proof {
            assert(d1@ =~= d2@);
            assert(d1@[0]@ == "rqrr"@);
            assert(crate::types::engines_listed(d1@));
        }
        return Ok(
            MultiDecodeResult {
                content,
                metadata: Some(
                    QrMetadata {
                        version,
                        error_correction: convert_rqrr_ec(ecc),
                        modules,
                        decoders_success: d1,
                    },
                ),
                decoders_success: d2,
            },
        );
    }
    Err(QraiError::DecodeFailed)
}

/// Preprocessing parameters for one decode candidate. The multipliers are
/// held in integer fixed point: percent for contrast and brightness (100 is
/// neutral) and tenths for the blur sigma.
#[derive(Debug, Clone, Copy)]
pub struct PreprocessParams {
    /// Target size in pixels (0 = no resize).
    pub resize: u32,
    /// Contrast multiplier in percent.
    pub contrast_pct: u32,
    /// Brightness multiplier in percent.
    pub brightness_pct: u32,
    /// Blur sigma in tenths (0 = no blur).
    pub blur_tenths: u32,
    /// Convert to grayscale first.
    pub grayscale: bool,
}

impl PreprocessParams {
    /// Well-formedness: every field within the ranges the transforms accept.
    pub open spec fn wf(&self) -> bool {
        &&& self.resize <= MAX_DIMENSION
        &&& 1 <= self.contrast_pct <= 1000
        &&& 1 <= self.brightness_pct <= 1000
        &&& self.blur_tenths <= 50
    }
}

/// Whether a parameter set's resize step fires on an image: a positive
/// target that the image exceeds on some side.
pub open spec fn resize_applies(img: RasterImage, params: PreprocessParams) -> bool {
    params.resize > 0 && (img.width > params.resize || img.height > params.resize)
}

/// The grayscale-or-not base buffer a parameter set starts from when the
/// resize step does not fire.
pub open spec fn preprocess_base(img: RasterImage, params: PreprocessParams) -> Seq<u8> {
    if params.grayscale {
        img.gray_view()
    } else {
        img.data@
    }
}

/// Apply one parameter set: resize (fast integer path), optional grayscale,
/// contrast/brightness, then blur when the sigma is above the negligible
/// threshold (0.3). When the resize step fires, the result fits within the
/// target; otherwise the dimensions are unchanged and — when no blur is
/// applied either — every byte is the contrast/brightness adjustment of the
/// (optionally grayscaled) input.
pub fn apply_preprocessing_fast(img: &RasterImage, params: &PreprocessParams) -> (r: RasterImage)
    requires
        img.wf(),
        params.wf(),
    ensures
        r.wf(),
        params.grayscale ==> r.channels == 1,
        !params.grayscale ==> r.channels == img.channels,
        resize_applies(*img, *params) ==> r.width <= params.resize && r.height <= params.resize,
        !resize_applies(*img, *params) ==> r.width == img.width && r.height == img.height,
        (!resize_applies(*img, *params) && params.blur_tenths <= 3) ==> {
            let base = preprocess_base(*img, *params);
            &&& r.data@.len() == base.len()
            &&& ((params.contrast_pct != 100 || params.brightness_pct != 100) ==> (forall|j: int|
                0 <= j < base.len() ==> r.data@[j] == adjust_byte(
                    base[j] as int,
                    params.brightness_pct as int,
                    params.contrast_pct as int,
                ) as u8))
            &&& ((params.contrast_pct == 100 && params.brightness_pct == 100) ==> r.data@ == base)
        },
{
    let mut result = img.duplicate();
    if params.resize > 0 && (result.width() > params.resize || result.height() > params.resize) {
        result = result.thumbnail_resize(params.resize);
    }
    if params.grayscale {
        result = result.to_gray();
    }
    if params.contrast_pct != 100 || params.brightness_pct != 100 {
        result = result.apply_contrast_brightness(params.contrast_pct, params.brightness_pct);
    }
    if params.blur_tenths > 3 {
        result = result.apply_blur(params.blur_tenths);
    }
    result
}

/// One candidate, tested in its raw, Otsu-binarized and inverted-Otsu forms.
pub fn try_candidate_expanded(img: &RasterImage) -> (r: Option<MultiDecodeResult>)
    requires
        img.wf(),
    ensures
        r matches Some(m) ==> m.wf() && m.metadata is Some,
{
    if let Ok(m) = try_decode_with_both(img) {
        return Some(m);
    }
    let otsu = img.apply_otsu_threshold();
    if let Ok(m) = try_decode_with_both(&otsu) {
        return Some(m);
    }
    let inverted = otsu.invert_image();
    if let Ok(m) = try_decode_with_both(&inverted) {
        return Some(m);
    }
    None
}

/// One parameter set: preprocess, then test the expanded candidate forms.
pub fn try_param_candidate(img: &RasterImage, params: &PreprocessParams) -> (r: Option<
    MultiDecodeResult,
>)
    requires
        img.wf(),
        params.wf(),
    ensures
        r matches Some(m) ==> m.wf() && m.metadata is Some,
{
    let processed = apply_preprocessing_fast(img, params);
    try_candidate_expanded(&processed)
}

/// Relies on rayon's find_map_any over the candidate list: a returned value
/// is one produced by the per-candidate test (the verified
/// try_decode_with_both) on some candidate; tasks race and the first success
/// wins. Which candidate wins is intentionally not modeled.
#[verifier::external_body]
fn par_first_decode(images: &Vec<RasterImage>) -> (r: Option<MultiDecodeResult>)
    requires
        forall|i: int| 0 <= i < images@.len() ==> (#[trigger] images@[i]).wf(),
    ensures
        r matches Some(m) ==> m.wf() && m.metadata is Some,
{
    images.par_iter().find_map_any(|img| try_decode_with_both(img).ok())
}

/// Relies on rayon's find_map_any, as par_first_decode; the per-candidate
/// test is the verified try_candidate_expanded.
#[verifier::external_body]
fn par_first_decode_expanded(images: &Vec<RasterImage>) -> (r: Option<MultiDecodeResult>)
    requires
        forall|i: int| 0 <= i < images@.len() ==> (#[trigger] images@[i]).wf(),
    ensures
        r matches Some(m) ==> m.wf() && m.metadata is Some,
{
    images.par_iter().find_map_any(|img| try_candidate_expanded(img))
}

/// Relies on rayon's find_map_any over the parameter list: the per-parameter
/// test is the verified try_param_candidate on the one shared source image.
#[verifier::external_body]
fn par_first_decode_params(img: &RasterImage, params: &Vec<PreprocessParams>) -> (r: Option<
    MultiDecodeResult,
>)
    requires
        img.wf(),
        forall|i: int| 0 <= i < params@.len() ==> (#[trigger] params@[i]).wf(),
    ensures
        r matches Some(m) ==> m.wf() && m.metadata is Some,
{
    params.par_iter().find_map_any(|p| try_param_candidate(img, p))
}

/// Relies on std::time::SystemTime for a nanosecond reading of the clock;
/// the value depends on the wall clock, so nothing is promised of it.
#[verifier::external_body]
fn now_nanos() -> (r: Option<u64>)
{
    std::time::SystemTime::now()
        .duration_since(std::time::UNIX_EPOCH)
        .ok()
        .map(|d| d.as_nanos() as u64)
}

/// One xorshift step: the fast bit-mixing generator of the tier-4 search.
pub open spec fn xorshift_spec(s: u64) -> u64 {
    let a = s ^ (s << 13);
    let b = a ^ (a >> 7);
    b ^ (b << 17)
}

/// Advance the explicit generator state by one xorshift step.
pub fn xorshift_step(s: u64) -> (r: u64)
    ensures
        r == xorshift_spec(s),
{
    let a = s ^ (s << 13);
    let b = a ^ (a >> 7);
    b ^ (b << 17)
}

/// The generator state after `n` xorshift steps from `seed`.
pub open spec fn xorshift_chain(seed: u64, n: nat) -> u64
    decreases n,
{
    if n == 0 {
        seed
    } else {
        xorshift_spec(xorshift_chain(seed, (n - 1) as nat))
    }
}

/// The resize target a generator state selects, from the fixed set of
/// "reasonable" sizes.
pub open spec fn spec_size_option(s: u64) -> u32 {
    if s % 8 == 0 {
        200
    } else if s % 8 == 1 {
        250
    } else if s % 8 == 2 {
        300
    } else if s % 8 == 3 {
        350
    } else if s % 8 == 4 {
        400
    } else if s % 8 == 5 {
        450
    } else if s % 8 == 6 {
        500
    } else {
        550
    }
}

fn size_option(idx: u64) -> (r: u32)
    ensures
        r == spec_size_option(idx),
        200 <= r <= 550,
{
    match idx % 8 {
        0 => 200,
        1 => 250,
        2 => 300,
        3 => 350,
        4 => 400,
        5 => 450,
        6 => 500,
        _ => 550,
    }
}

/// The parameter set the generator derives at position `k`: five xorshift
/// draws, in order, for resize, contrast, brightness, blur and grayscale.
pub open spec fn spec_param_at(seed: u64, k: int) -> PreprocessParams {
    let s1 = xorshift_chain(seed, (5 * k + 1) as nat);
    let s2 = xorshift_chain(seed, (5 * k + 2) as nat);
    let s3 = xorshift_chain(seed, (5 * k + 3) as nat);
    let s4 = xorshift_chain(seed, (5 * k + 4) as nat);
    let s5 = xorshift_chain(seed, (5 * k + 5) as nat);
    PreprocessParams {
        resize: spec_size_option(s1),
        contrast_pct: (100 + s2 % 301) as u32,
        brightness_pct: (80 + s3 % 61) as u32,
        blur_tenths: (s4 % 16) as u32,
        grayscale: (s5 % 10) < 7,
    }
}

/// Generate `count` pseudo-random parameter sets from the given seed,
/// sequentially, before any parallel work is dispatched: parallel workers
/// never contend over generator state. The output is determined by the seed
/// alone: the i-th set is `spec_param_at(seed, i)` and the returned state is
/// the seed advanced by five steps per set. Ranges: contrast 100-400%,
/// brightness 80-140%, blur 0-1.5, grayscale with probability 0.7.
pub fn generate_random_params(seed: u64, count: u32) -> (r: (Vec<PreprocessParams>, u64))
    ensures
        r.0@.len() == count,
        r.1 == xorshift_chain(seed, (5 * count) as nat),
        forall|i: int| 0 <= i < count ==> (#[trigger] r.0@[i]) == spec_param_at(seed, i),
        forall|i: int| 0 <= i < count ==> (#[trigger] r.0@[i]).wf(),
        forall|i: int|
            0 <= i < count ==> {
                &&& 200 <= (#[trigger] r.0@[i]).resize <= 550
                &&& 100 <= r.0@[i].contrast_pct <= 400
                &&& 80 <= r.0@[i].brightness_pct <= 140
                &&& r.0@[i].blur_tenths <= 15
            },
{
    let mut params: Vec<PreprocessParams> = Vec::new();
    let mut state = seed;
    let mut k: u32 = 0;
    while k < count
        invariant
            k <= count,
            params@.len() == k,
            state == xorshift_chain(seed, (5 * k) as nat),
            forall|i: int| 0 <= i < k ==> (#[trigger] params@[i]) == spec_param_at(seed, i),
            forall|i: int| 0 <= i < k ==> (#[trigger] params@[i]).wf(),
            forall|i: int|
                0 <= i < k ==> {
                    &&& 200 <= (#[trigger] params@[i]).resize <= 550
                    &&& 100 <= params@[i].contrast_pct <= 400
                    &&& 80 <= params@[i].brightness_pct <= 140
                    &&& params@[i].blur_tenths <= 15
                },
        decreases count - k,
    {
        proof {
            assert(xorshift_chain(seed, (5 * k + 1) as nat) == xorshift_spec(
                xorshift_chain(seed, (5 * k) as nat),
            ));
            assert(xorshift_chain(seed, (5 * k + 2) as nat) == xorshift_spec(
                xorshift_chain(seed, (5 * k + 1) as nat),
            ));
            assert(xorshift_chain(seed, (5 * k + 3) as nat) == xorshift_spec(
                xorshift_chain(seed, (5 * k + 2) as nat),
            ));
            assert(xorshift_chain(seed, (5 * k + 4) as nat) == xorshift_spec(
                xorshift_chain(seed, (5 * k + 3) as nat),
            ));
            assert(xorshift_chain(seed, (5 * k + 5) as nat) == xorshift_spec(
                xorshift_chain(seed, (5 * k + 4) as nat),
            ));
        }
        state = xorshift_step(state);
        let resize = size_option(state);
        state = xorshift_step(state);
        let contrast_pct: u32 = 100 + (state % 301) as u32;
        state = xorshift_step(state);
        let brightness_pct: u32 = 80 + (state % 61) as u32;
        state = xorshift_step(state);
        let blur_tenths: u32 = (state % 16) as u32;
        state = xorshift_step(state);
        let grayscale: bool = (state % 10) < 7;
        let p = PreprocessParams { resize, contrast_pct, brightness_pct, blur_tenths, grayscale };
        proof {
            assert(p == spec_param_at(seed, k as int));
        }
        params.push(p);
        k = k + 1;
    }
    (params, state)
}

/// The twelve known-good parameter combinations of the tier-3 pool, most
/// effective first.
pub fn known_good_params() -> (r: Vec<PreprocessParams>)
    ensures
        r@.len() == 12,
        forall|i: int| 0 <= i < 12 ==> (#[trigger] r@[i]).wf(),
        forall|i: int| 0 <= i < 12 ==> (#[trigger] r@[i]).grayscale,
{
    let mut p: Vec<PreprocessParams> = Vec::new();
    p.push(PreprocessParams { resize: 400, contrast_pct: 200, brightness_pct: 100, blur_tenths: 0, grayscale: true });
    p.push(PreprocessParams { resize: 350, contrast_pct: 250, brightness_pct: 100, blur_tenths: 5, grayscale: true });
    p.push(PreprocessParams { resize: 300, contrast_pct: 200, brightness_pct: 110, blur_tenths: 3, grayscale: true });
    p.push(PreprocessParams { resize: 400, contrast_pct: 180, brightness_pct: 90, blur_tenths: 0, grayscale: true });
    p.push(PreprocessParams { resize: 250, contrast_pct: 250, brightness_pct: 100, blur_tenths: 10, grayscale: true });
    p.push(PreprocessParams { resize: 300, contrast_pct: 300, brightness_pct: 100, blur_tenths: 8, grayscale: true });
    p.push(PreprocessParams { resize: 0, contrast_pct: 250, brightness_pct: 100, blur_tenths: 0, grayscale: true });
    p.push(PreprocessParams { resize: 0, contrast_pct: 200, brightness_pct: 110, blur_tenths: 5, grayscale: true });
    p.push(PreprocessParams { resize: 500, contrast_pct: 150, brightness_pct: 100, blur_tenths: 0, grayscale: true });
    p.push(PreprocessParams { resize: 450, contrast_pct: 220, brightness_pct: 100, blur_tenths: 3, grayscale: true });
    p.push(PreprocessParams { resize: 350, contrast_pct: 350, brightness_pct: 120, blur_tenths: 10, grayscale: true });
    p.push(PreprocessParams { resize: 300, contrast_pct: 400, brightness_pct: 100, blur_tenths: 15, grayscale: true });
    p
}

/// The tier-3 candidate pool: the twelve known-good combinations (slots
/// 0..12, all grayscale), then the red, green, blue and saturation channels
/// each raw and Otsu-binarized (slots 12..20), then the hue channel raw and
/// Otsu-binarized and the value channel raw and histogram-stretched (slots
/// 20..24).
pub fn build_tier3_pool(img: &RasterImage) -> (r: Vec<RasterImage>)
    requires
        img.wf(),
    ensures
        r@.len() == 24,
        forall|i: int| 0 <= i < r@.len() ==> (#[trigger] r@[i]).wf(),
        forall|i: int| 0 <= i < 12 ==> (#[trigger] r@[i]).channels == 1,
        r@[12].data@ == crate::raster::red_seq(*img),
        r@[13].data@ == crate::raster::otsu_seq(crate::raster::red_seq(*img)),
        r@[14].data@ == crate::raster::green_seq(*img),
        r@[15].data@ == crate::raster::otsu_seq(crate::raster::green_seq(*img)),
        r@[16].data@ == crate::raster::blue_seq(*img),
        r@[17].data@ == crate::raster::otsu_seq(crate::raster::blue_seq(*img)),
        r@[18].data@ == crate::raster::sat_seq(*img),
        r@[19].data@ == crate::raster::otsu_seq(crate::raster::sat_seq(*img)),
        r@[20].data@ == crate::raster::hue_seq(*img),
        r@[21].data@ == crate::raster::otsu_seq(crate::raster::hue_seq(*img)),
        r@[22].data@ == crate::raster::value_seq(*img),
        r@[23].data@ == crate::raster::stretch_seq(crate::raster::value_seq(*img)),
{
    let mut pool: Vec<RasterImage> = Vec::new();
    let known = known_good_params();
    let mut i: usize = 0;
    while i < known.len()
        invariant
            img.wf(),
            known@.len() == 12,
            forall|j: int| 0 <= j < 12 ==> (#[trigger] known@[j]).wf(),
            forall|j: int| 0 <= j < 12 ==> (#[trigger] known@[j]).grayscale,
            i <= 12,
            pool@.len() == i,
            forall|j: int| 0 <= j < pool@.len() ==> (#[trigger] pool@[j]).wf(),
            forall|j: int| 0 <= j < pool@.len() ==> (#[trigger] pool@[j]).channels == 1,
        decreases known@.len() - i,
    {
        pool.push(apply_preprocessing_fast(img, &known[i]));
        i = i + 1;
    }
    let channels = img.extract_color_channels();
    let red = channels[0].duplicate();
    let red_otsu = channels[0].apply_otsu_threshold();
    let green = channels[1].duplicate();
    let green_otsu = channels[1].apply_otsu_threshold();
    let blue = channels[2].duplicate();
    let blue_otsu = channels[2].apply_otsu_threshold();
    let sat = channels[3].duplicate();
    let sat_otsu = channels[3].apply_otsu_threshold();
    pool.push(red);
    pool.push(red_otsu);
    pool.push(green);
    pool.push(green_otsu);
    pool.push(blue);
    pool.push(blue_otsu);
    pool.push(sat);
    pool.push(sat_otsu);
    let hue = img.extract_hue_channel();
    let hue_otsu = hue.apply_otsu_threshold();
    pool.push(hue);
    pool.push(hue_otsu);
    let value = img.extract_value_channel();
    let value_enhanced = value.enhance_contrast();
    pool.push(value);
    pool.push(value_enhanced);
    pool
}

/// Which tiers of the search ran and which one succeeded (0 = none).
#[derive(Debug, Clone, Copy, PartialEq, Eq, Structural)]
pub struct TierTrace {
    pub tier1_tried: bool,
    pub tier2_tried: bool,
    pub tier3_tried: bool,
    pub tier4_tried: bool,
    /// 1 to 4 when that tier produced the decode, 0 when every tier failed.
    pub success_tier: u8,
}

/// The tiered decode search, with its invocation trace: tier 1 tests the
/// unmodified image, tier 2 a quick binarization trio, tier 3 the unified
/// known-good and channel pool, tier 4 `tier4_tries` pseudo-random parameter
/// sets. A tier runs exactly when every earlier tier ran and failed, so a
/// tier-1 success means no later tier ever executes.
pub fn search_tiers(img: &RasterImage, tier4_tries: u32) -> (r: (
    Option<MultiDecodeResult>,
    TierTrace,
))
    requires
        img.wf(),
    ensures
        r.1.tier1_tried,
        r.1.success_tier <= 4,
        r.0 is Some <==> r.1.success_tier != 0,
        r.1.tier2_tried <==> r.1.success_tier != 1,
        r.1.tier3_tried <==> (r.1.success_tier != 1 && r.1.success_tier != 2),
        r.1.tier4_tried <==> (r.1.success_tier == 0 || r.1.success_tier == 4),
        r.0 matches Some(m) ==> m.wf() && m.metadata is Some,
{
    let mut trace = TierTrace {
        tier1_tried: true,
        tier2_tried: false,
        tier3_tried: false,
        tier4_tried: false,
        success_tier: 0,
    };
    // Tier 1: the unmodified image.
    if let Ok(m) = try_decode_with_both(img) {
        trace.success_tier = 1;
        return (Some(m), trace);
    }
    // Tier 2: quick binarization trio.
    trace.tier2_tried = true;
    let otsu = img.apply_otsu_threshold();
    let inverted = otsu.invert_image();
    let high_contrast = img.apply_high_contrast_threshold();
    let mut quick: Vec<RasterImage> = Vec::new();
    quick.push(otsu);
    quick.push(inverted);
    quick.push(high_contrast);
    if let Some(m) = par_first_decode(&quick) {
        trace.success_tier = 2;
        return (Some(m), trace);
    }
    // Tier 3: the unified pool, each candidate in three forms.
    trace.tier3_tried = true;
    let pool = build_tier3_pool(img);
    if let Some(m) = par_first_decode_expanded(&pool) {
        trace.success_tier = 3;
        return (Some(m), trace);
    }
    // Tier 4: pseudo-random brute force, seeded from the clock.
    trace.tier4_tried = true;
    let seed = match now_nanos() {
        Some(s) => s,
        None => 12345,
    };
    let (params, _) = generate_random_params(seed, tier4_tries);
    if let Some(m) = par_first_decode_params(img, &params) {
        trace.success_tier = 4;
        return (Some(m), trace);
    }
    (None, trace)
}

/// Multi-engine decode of an already-loaded image through the tiered search
/// (64 tier-4 tries by default).
pub fn multi_decode_image(img: &RasterImage) -> (r: Result<MultiDecodeResult, QraiError>)
    requires
        img.wf(),
    ensures
        r matches Ok(m) ==> m.wf() && m.metadata is Some,
        r matches Err(e) ==> e is DecodeFailed,
{
    let (outcome, _trace) = search_tiers(img, 64);
    match outcome {
        Some(m) => Ok(m),
        None => Err(QraiError::DecodeFailed),
    }
}

/// Multi-engine decode of raw image bytes: load, then search.
pub fn multi_decode(image_bytes: &[u8]) -> (r: Result<MultiDecodeResult, QraiError>)
    ensures
        r matches Ok(m) ==> m.wf() && m.metadata is Some && crate::raster::image_ok(image_bytes@),
        (r matches Err(e) && (e is ImageLoad || e is DimensionsTooLarge)) <==> !crate::raster::image_ok(image_bytes@),
        r matches Err(e) ==> (e is ImageLoad || e is DimensionsTooLarge || e is DecodeFailed),
        crate::raster::loaded_rgb_of(image_bytes@) is None ==> (r matches Err(e)
            && e is ImageLoad),
{
    let img = match crate::raster::load_raster(image_bytes) {
        Ok(i) => i,
        Err(e) => {
            return Err(e);
        },
    };
    multi_decode_image(&img)
}

} // verus!
