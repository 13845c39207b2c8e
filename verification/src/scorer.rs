//! Scannability scoring: the stress battery and the weighted score.
//!
//! The battery degrades a decodable image in controlled ways (downscale,
//! blur, reduced contrast) and records pass/fail for every variant without
//! short-circuiting. The score is the weighted share of passed variants,
//! with a bonus when two decode engines agreed.

use vstd::prelude::*;

use rayon::iter::IntoParallelRefIterator;
use rayon::iter::ParallelIterator;

use crate::decoder::multi_decode_image;
use crate::error::QraiError;
use crate::raster::RasterImage;
use crate::types::StressResults;

verus! {

/// Weight of a decode at the original resolution.
pub const WEIGHT_ORIGINAL: u32 = 20;

/// Weight of a decode at 50% scale.
pub const WEIGHT_DOWNSCALE_50: u32 = 15;

/// Weight of a decode at 25% scale.
pub const WEIGHT_DOWNSCALE_25: u32 = 10;

/// Weight of a decode under light blur.
pub const WEIGHT_BLUR_LIGHT: u32 = 15;

/// Weight of a decode under medium blur.
pub const WEIGHT_BLUR_MEDIUM: u32 = 10;

/// Weight of a decode under reduced contrast.
pub const WEIGHT_LOW_CONTRAST: u32 = 15;

/// Bonus weight when two or more decode engines succeeded.
pub const WEIGHT_MULTI_DECODER: u32 = 15;

/// Total weight of the full battery.
pub const TOTAL_WEIGHT: u32 = WEIGHT_ORIGINAL + WEIGHT_DOWNSCALE_50 + WEIGHT_DOWNSCALE_25
    + WEIGHT_BLUR_LIGHT + WEIGHT_BLUR_MEDIUM + WEIGHT_LOW_CONTRAST + WEIGHT_MULTI_DECODER;

/// Total weight of the reduced ("fast") battery: only the original,
/// 50%-downscale and light-blur dimensions are tested, so only their
/// weights (and the bonus) count.
pub const FAST_TOTAL_WEIGHT: u32 = WEIGHT_ORIGINAL + WEIGHT_DOWNSCALE_50 + WEIGHT_BLUR_LIGHT
    + WEIGHT_MULTI_DECODER;

/// The weighted points of a stress outcome, with the engine-agreement bonus.
pub open spec fn score_points(s: StressResults, engines: int) -> int {
    (if s.original {
        WEIGHT_ORIGINAL as int
    } else {
        0
    }) + (if s.downscale_50 {
        WEIGHT_DOWNSCALE_50 as int
    } else {
        0
    }) + (if s.downscale_25 {
        WEIGHT_DOWNSCALE_25 as int
    } else {
        0
    }) + (if s.blur_light {
        WEIGHT_BLUR_LIGHT as int
    } else {
        0
    }) + (if s.blur_medium {
        WEIGHT_BLUR_MEDIUM as int
    } else {
        0
    }) + (if s.low_contrast {
        WEIGHT_LOW_CONTRAST as int
    } else {
        0
    }) + (if engines >= 2 {
        WEIGHT_MULTI_DECODER as int
    } else {
        0
    })
}

/// The full-battery score: points normalized to 0-100 and capped at 100.
pub open spec fn spec_score(s: StressResults, engines: int) -> int {
    let scaled = score_points(s, engines) * 100 / (TOTAL_WEIGHT as int);
    if scaled > 100 {
        100
    } else {
        scaled
    }
}

/// The points counted by the fast profile: original, 50% downscale, light
/// blur and the bonus.
pub open spec fn fast_score_points(s: StressResults, engines: int) -> int {
    (if s.original {
        WEIGHT_ORIGINAL as int
    } else {
        0
    }) + (if s.downscale_50 {
        WEIGHT_DOWNSCALE_50 as int
    } else {
        0
    }) + (if s.blur_light {
        WEIGHT_BLUR_LIGHT as int
    } else {
        0
    }) + (if engines >= 2 {
        WEIGHT_MULTI_DECODER as int
    } else {
        0
    })
}

/// The fast-profile score: points normalized against the reduced total, so a
/// partial stress run is not penalized for dimensions it never tested.
pub open spec fn spec_fast_score(s: StressResults, engines: int) -> int {
    let scaled = fast_score_points(s, engines) * 100 / (FAST_TOTAL_WEIGHT as int);
    if scaled > 100 {
        100
    } else {
        scaled
    }
}

/// Calculate the scannability score from full stress results.
pub fn calculate_score(stress: &StressResults, num_decoders: usize) -> (r: u8)
    ensures
        r as int == spec_score(*stress, num_decoders as int),
        r <= 100,
{
    let mut score: u32 = 0;
    if stress.original {
        score = score + WEIGHT_ORIGINAL;
    }
    if stress.downscale_50 {
        score = score + WEIGHT_DOWNSCALE_50;
    }
    if stress.downscale_25 {
        score = score + WEIGHT_DOWNSCALE_25;
    }
    if stress.blur_light {
        score = score + WEIGHT_BLUR_LIGHT;
    }
    if stress.blur_medium {
        score = score + WEIGHT_BLUR_MEDIUM;
    }
    if stress.low_contrast {
        score = score + WEIGHT_LOW_CONTRAST;
    }
    if num_decoders >= 2 {
        score = score + WEIGHT_MULTI_DECODER;
    }
    let scaled = score * 100 / TOTAL_WEIGHT;
    if scaled > 100 {
        100
    } else {
        scaled as u8
    }
}

/// Calculate the score for the fast profile (reduced denominator).
pub fn calculate_fast_score(stress: &StressResults, num_decoders: usize) -> (r: u8)
    ensures
        r as int == spec_fast_score(*stress, num_decoders as int),
        r <= 100,
{
    let mut score: u32 = 0;
    if stress.original {
        score = score + WEIGHT_ORIGINAL;
    }
    if stress.downscale_50 {
        score = score + WEIGHT_DOWNSCALE_50;
    }
    if stress.blur_light {
        score = score + WEIGHT_BLUR_LIGHT;
    }
    if num_decoders >= 2 {
        score = score + WEIGHT_MULTI_DECODER;
    }
    let scaled = score * 100 / FAST_TOTAL_WEIGHT;
    if scaled > 100 {
        100
    } else {
        scaled as u8
    }
}

/// One stress outcome dominates another when it passes every variant the
/// other passes.
pub open spec fn stress_dominates(a: StressResults, b: StressResults) -> bool {
    &&& b.original ==> a.original
    &&& b.downscale_50 ==> a.downscale_50
    &&& b.downscale_25 ==> a.downscale_25
    &&& b.blur_light ==> a.blur_light
    &&& b.blur_medium ==> a.blur_medium
    &&& b.low_contrast ==> a.low_contrast
}

/// The score is monotonic: flipping any stress flag from false to true (or
/// any set of them) never decreases the score, in either profile.
pub proof fn lemma_score_monotonic(s1: StressResults, s2: StressResults, engines: int)
    requires
        stress_dominates(s2, s1),
    ensures
        spec_score(s1, engines) <= spec_score(s2, engines),
        spec_fast_score(s1, engines) <= spec_fast_score(s2, engines),
{
    assert(score_points(s1, engines) <= score_points(s2, engines));
    assert(fast_score_points(s1, engines) <= fast_score_points(s2, engines));
    vstd::arithmetic::div_mod::lemma_div_is_ordered(
        score_points(s1, engines) * 100,
        score_points(s2, engines) * 100,
        TOTAL_WEIGHT as int,
    );
    vstd::arithmetic::div_mod::lemma_div_is_ordered(
        fast_score_points(s1, engines) * 100,
        fast_score_points(s2, engines) * 100,
        FAST_TOTAL_WEIGHT as int,
    );
}

/// Whether an image variant still decodes.
fn test_decode(img: &RasterImage) -> (r: bool)
    requires
        img.wf(),
{
    multi_decode_image(img).is_ok()
}

/// Relies on rayon: the variants are tested in parallel with map/collect,
/// and collect on an indexed parallel iterator keeps the order, so the k-th
/// outcome belongs to the k-th variant. Each outcome comes from the verified
/// per-image test; whether a variant decodes is not modeled.
#[verifier::external_body]
fn par_test_decode_all(images: &Vec<RasterImage>) -> (r: Vec<bool>)
    requires
        forall|i: int| 0 <= i < images@.len() ==> (#[trigger] images@[i]).wf(),
    ensures
        r@.len() == images@.len(),
{
    images.par_iter().map(|img| test_decode(img)).collect()
}

/// A side scaled to a percentage, floored at one pixel.
pub open spec fn scaled_side(side: int, pct: int) -> int {
    let s = side * pct / 100;
    if s < 1 {
        1
    } else {
        s
    }
}

/// Downscale each side to the given percentage (at least one pixel), with
/// the fast Triangle filter: the result fits within the scaled dimensions.
pub fn downscale(img: &RasterImage, pct: u32) -> (r: RasterImage)
    requires
        img.wf(),
        1 <= pct <= 100,
    ensures
        r.wf(),
        r.channels == img.channels,
        r.width <= scaled_side(img.width as int, pct as int),
        r.height <= scaled_side(img.height as int, pct as int),
{
    proof {
        assert((img.width as int) * (pct as int) < 0x10000000000000000 && (img.height as int) * (
        pct as int) < 0x10000000000000000) by (nonlinear_arith)
            requires
                img.width <= 0xFFFF_FFFFu32,
                img.height <= 0xFFFF_FFFFu32,
                pct <= 100,
        ;
        assert((img.width as int) * (pct as int) / 100 <= img.width as int) by (nonlinear_arith)
            requires
                pct <= 100,
                0 <= img.width,
        ;
        assert((img.height as int) * (pct as int) / 100 <= img.height as int) by (nonlinear_arith)
            requires
                pct <= 100,
                0 <= img.height,
        ;
    }
    let nw64: u64 = (img.width() as u64) * (pct as u64) / 100;
    let nh64: u64 = (img.height() as u64) * (pct as u64) / 100;
    let mut nw: u32 = nw64 as u32;
    let mut nh: u32 = nh64 as u32;
    if nw < 1 {
        nw = 1;
    }
    if nh < 1 {
        nh = 1;
    }
    img.resize_to(nw, nh)
}

/// Run the full stress battery on an already-loaded, decodable image. Every
/// variant is tested independently, with no short-circuit; when even the
/// original fails to decode, all flags stay false.
pub fn run_stress_tests_on_image(img: &RasterImage) -> (r: Result<StressResults, QraiError>)
    requires
        img.wf(),
    ensures
        r is Ok,
        r matches Ok(s) ==> (!s.original ==> (!s.downscale_50 && !s.downscale_25 && !s.blur_light
            && !s.blur_medium && !s.low_contrast)),
{
    let original = test_decode(img);
    if !original {
        return Ok(
            StressResults {
                original: false,
                downscale_50: false,
                downscale_25: false,
                blur_light: false,
                blur_medium: false,
                low_contrast: false,
            },
        );
    }
    let mut variants: Vec<RasterImage> = Vec::new();
    variants.push(downscale(img, 50));
    variants.push(downscale(img, 25));
    variants.push(img.apply_blur(10));
    variants.push(img.apply_blur(20));
    variants.push(img.reduce_contrast());
    let results = par_test_decode_all(&variants);
    Ok(
        StressResults {
            original: true,
            downscale_50: results[0],
            downscale_25: results[1],
            blur_light: results[2],
            blur_medium: results[3],
            low_contrast: results[4],
        },
    )
}

/// Run only the fast subset of the battery: original, 50% downscale and
/// light blur; the remaining flags keep their false default.
pub fn run_fast_stress_tests(img: &RasterImage) -> (r: Result<StressResults, QraiError>)
    requires
        img.wf(),
    ensures
        r is Ok,
        r matches Ok(s) ==> !s.downscale_25 && !s.blur_medium && !s.low_contrast,
        r matches Ok(s) ==> (!s.original ==> (!s.downscale_50 && !s.blur_light)),
{
    let original = test_decode(img);
    if !original {
        return Ok(StressResults::default());
    }
    let downscale_50 = test_decode(&downscale(img, 50));
    let blur_light = test_decode(&img.apply_blur(10));
    Ok(
        StressResults {
            original: true,
            downscale_50,
            downscale_25: false,
            blur_light,
            blur_medium: false,
            low_contrast: false,
        },
    )
}

/// Run the full stress battery on raw image bytes.
pub fn run_stress_tests(image_bytes: &[u8]) -> (r: Result<StressResults, QraiError>)
    ensures
        r matches Err(e) ==> (e is ImageLoad || e is DimensionsTooLarge),
        crate::raster::image_ok(image_bytes@) <==> r is Ok,
        crate::raster::loaded_rgb_of(image_bytes@) is None ==> (r matches Err(e)
            && e is ImageLoad),
        r matches Ok(s) ==> (!s.original ==> (!s.downscale_50 && !s.downscale_25 && !s.blur_light
            && !s.blur_medium && !s.low_contrast)),
{
    let img = match crate::raster::load_raster(image_bytes) {
        Ok(i) => i,
        Err(e) => {
            return Err(e);
        },
    };
    run_stress_tests_on_image(&img)
}

} // verus!
