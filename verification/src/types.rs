//! Shared result and value types of the validator.

use vstd::prelude::*;

verus! {

/// QR code error correction level.
#[derive(Debug, Clone, Copy, PartialEq, Eq, Structural)]
pub enum ErrorCorrectionLevel {
    /// ~7% recovery capacity
    L,
    /// ~15% recovery capacity
    M,
    /// ~25% recovery capacity
    Q,
    /// ~30% recovery capacity
    H,
}

impl Default for ErrorCorrectionLevel {
    /// The most common level, `M`, is the default.
    fn default() -> (r: Self)
        ensures
            r == ErrorCorrectionLevel::M,
    {
        ErrorCorrectionLevel::M
    }
}

impl ErrorCorrectionLevel {
    /// Single-letter code of the level, in place of `Display`.
    pub fn as_letter(&self) -> (r: String)
        ensures
            *self == ErrorCorrectionLevel::L ==> r@ == "L"@,
            *self == ErrorCorrectionLevel::M ==> r@ == "M"@,
            *self == ErrorCorrectionLevel::Q ==> r@ == "Q"@,
            *self == ErrorCorrectionLevel::H ==> r@ == "H"@,
    {
        match self {
            ErrorCorrectionLevel::L => String::from_str("L"),
            ErrorCorrectionLevel::M => String::from_str("M"),
            ErrorCorrectionLevel::Q => String::from_str("Q"),
            ErrorCorrectionLevel::H => String::from_str("H"),
        }
    }
}

/// The engine list a decode outcome may carry: the engine "rxing" alone,
/// "rqrr" alone, or both in that order — nonempty, duplicate-free, and no
/// other names.
pub open spec fn engines_listed(d: Seq<String>) -> bool {
    ||| (d.len() == 1 && (d[0]@ == "rxing"@ || d[0]@ == "rqrr"@))
    ||| (d.len() == 2 && d[0]@ == "rxing"@ && d[1]@ == "rqrr"@)
}

/// Whether rqrr stands among the listed engines (for a list that satisfies
/// `engines_listed`: either both engines, or rqrr alone).
pub open spec fn rqrr_listed(d: Seq<String>) -> bool {
    ||| d.len() == 2
    ||| (d.len() == 1 && d[0]@ == "rqrr"@)
}

/// The metadata-merge policy of the two-engine decode: rqrr's metadata is
/// preferred whenever rqrr succeeded, so the version is then known and lies
/// in 1..=40; when rxing alone succeeded, no version or level is available
/// and the defaults (version 0, level M) stand.
pub open spec fn merged_metadata(meta: QrMetadata) -> bool {
    &&& rqrr_listed(meta.decoders_success@) ==> 1 <= meta.version <= 40
    &&& !rqrr_listed(meta.decoders_success@) ==> meta.version == 0 && meta.error_correction
        == ErrorCorrectionLevel::M
}

/// The two engine names differ; useful when case-splitting on the engine
/// list of a decode outcome.
pub proof fn lemma_engine_names_differ()
    ensures
        "rxing"@ != "rqrr"@,
{
    reveal_strlit("rxing");
    reveal_strlit("rqrr");
    assert("rxing"@.len() == 5);
    assert("rqrr"@.len() == 4);
}

/// Technical metadata about a decoded QR code.
///
/// Invariant: when a version is known (`version > 0`) it lies in 1..=40 and
/// the module count is `17 + 4 * version`; when it is unknown (`version == 0`)
/// the module count is 0. The version is known exactly when rqrr stands
/// among the succeeding engines (the merge policy).
#[derive(Debug, Clone)]
pub struct QrMetadata {
    /// QR code version (1-40, determines size); 0 when unknown.
    pub version: u8,
    /// Error correction level.
    pub error_correction: ErrorCorrectionLevel,
    /// Number of modules per side (21, 25, 29, ...); 0 when unknown.
    pub modules: u8,
    /// List of decode engines that successfully decoded this QR.
    pub decoders_success: Vec<String>,
}

impl QrMetadata {
    /// Well-formedness: the module count matches the version, the engine
    /// list holds only the two engine names without duplicates, and the
    /// version reflects the merge policy (known iff rqrr succeeded).
    pub open spec fn wf(&self) -> bool {
        &&& self.version <= 40
        &&& self.version == 0 ==> self.modules == 0
        &&& self.version >= 1 ==> self.modules == 17 + 4 * self.version
        &&& engines_listed(self.decoders_success@)
        &&& merged_metadata(*self)
    }
}

/// Results of the stress battery used for scannability scoring.
#[derive(Debug, Clone)]
pub struct StressResults {
    /// Decoded at original resolution.
    pub original: bool,
    /// Decoded at 50% scale.
    pub downscale_50: bool,
    /// Decoded at 25% scale.
    pub downscale_25: bool,
    /// Decoded with light blur (sigma 1.0).
    pub blur_light: bool,
    /// Decoded with medium blur (sigma 2.0).
    pub blur_medium: bool,
    /// Decoded with reduced contrast.
    pub low_contrast: bool,
}

impl Default for StressResults {
    /// Every flag defaults to false.
    fn default() -> (r: Self)
        ensures
            !r.original && !r.downscale_50 && !r.downscale_25,
            !r.blur_light && !r.blur_medium && !r.low_contrast,
    {
        StressResults {
            original: false,
            downscale_50: false,
            downscale_25: false,
            blur_light: false,
            blur_medium: false,
            low_contrast: false,
        }
    }
}

/// Result of a full QR validation, including score and metadata.
#[derive(Debug, Clone)]
pub struct ValidationResult {
    /// Scannability score from 0-100.
    pub score: u8,
    /// Whether at least one decoder successfully read the QR.
    pub decodable: bool,
    /// Decoded content of the QR code.
    pub content: Option<String>,
    /// QR code technical metadata.
    pub metadata: Option<QrMetadata>,
    /// Results of the stress tests used for scoring.
    pub stress_results: StressResults,
}

impl ValidationResult {
    /// Well-formedness: the score is in range and the metadata invariant holds.
    pub open spec fn wf(&self) -> bool {
        &&& self.score <= 100
        &&& self.metadata matches Some(m) ==> m.wf()
    }
}

/// Simple decode result (without stress tests).
#[derive(Debug, Clone)]
pub struct DecodeResult {
    /// Decoded content.
    pub content: String,
    /// Metadata if available.
    pub metadata: Option<QrMetadata>,
}

impl DecodeResult {
    /// Well-formedness: the metadata invariant holds when metadata is present.
    pub open spec fn wf(&self) -> bool {
        self.metadata matches Some(m) ==> m.wf()
    }
}

/// Result of the multi-engine decoder: content plus which engines succeeded.
#[derive(Debug, Clone)]
pub struct MultiDecodeResult {
    pub content: String,
    pub metadata: Option<QrMetadata>,
    pub decoders_success: Vec<String>,
}

impl MultiDecodeResult {
    /// Well-formedness: the listed engines are exactly "rxing", "rqrr" or
    /// both in that order, and the metadata (when present) satisfies its
    /// invariant and lists the same engines.
    pub open spec fn wf(&self) -> bool {
        &&& engines_listed(self.decoders_success@)
        &&& self.metadata matches Some(m) ==> m.wf() && m.decoders_success@ == self.decoders_success@
    }
}

} // verus!
