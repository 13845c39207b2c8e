//! Error taxonomy of the validator.
//!
//! `ImageLoad` is fatal (the bytes are not a recognizable raster format),
//! `DecodeFailed` is the normal "no QR code found" business outcome, and the
//! remaining variants report I/O and buffer-construction problems.

use vstd::prelude::*;

verus! {

/// Errors that can occur during QR validation.
#[derive(Debug, Clone)]
pub enum QraiError {
    /// Failed to load or parse image bytes.
    ImageLoad(String),
    /// No QR code found in the image after every tier of the search.
    DecodeFailed,
    /// IO error (file operations), carried as its description.
    Io(String),
    /// Image processing error.
    ImageProcessing(String),
    /// Image dimensions exceed safety limits.
    DimensionsTooLarge { width: u32, height: u32, max_dimension: u32 },
    /// Failed to create an image buffer (dimension/data mismatch).
    BufferMismatch { expected: usize, actual: usize },
    /// Integer overflow in a dimension calculation.
    DimensionOverflow { width: u32, height: u32 },
}

impl QraiError {
    /// Human-readable description of the error, in place of `Display`.
    pub fn message(&self) -> (r: String)
        ensures
            self is ImageLoad ==> r@ == "Failed to load image: "@ + self->ImageLoad_0@,
            self is DecodeFailed ==> r@ == "No QR code found in image"@,
            self is Io ==> r@ == "IO error: "@ + self->Io_0@,
            self is ImageProcessing ==> r@ == "Image processing error: "@ + self->ImageProcessing_0@,
            self is DimensionsTooLarge ==> r@ == "Image too large: dimensions exceed the configured maximum"@,
            self is BufferMismatch ==> r@ == "Failed to create image buffer: byte count does not match dimensions"@,
            self is DimensionOverflow ==> r@ == "Dimension overflow: width x height overflows"@,
    {
        match self {
            QraiError::ImageLoad(s) => String::from_str("Failed to load image: ").concat(s.as_str()),
            QraiError::DecodeFailed => String::from_str("No QR code found in image"),
            QraiError::Io(s) => String::from_str("IO error: ").concat(s.as_str()),
            QraiError::ImageProcessing(s) => String::from_str("Image processing error: ").concat(s.as_str()),
            QraiError::DimensionsTooLarge { .. } => String::from_str(
                "Image too large: dimensions exceed the configured maximum",
            ),
            QraiError::BufferMismatch { .. } => String::from_str(
                "Failed to create image buffer: byte count does not match dimensions",
            ),
            QraiError::DimensionOverflow { .. } => String::from_str(
                "Dimension overflow: width x height overflows",
            ),
        }
    }
}

} // verus!
