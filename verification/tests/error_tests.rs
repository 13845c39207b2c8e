use qrai_scanner::error::QraiError;

#[test]
fn error_display_image_load() {
    let err = QraiError::ImageLoad("invalid format".to_string());
    let msg = err.message();
    assert!(msg.contains("Failed to load image"));
    assert!(msg.contains("invalid format"));
}

#[test]
fn error_display_decode_failed() {
    let err = QraiError::DecodeFailed;
    assert!(err.message().contains("No QR code"));
}

#[test]
fn error_display_io() {
    let err = QraiError::Io("file not found".to_string());
    assert!(err.message().contains("IO error"));
}

#[test]
fn error_display_image_processing() {
    let err = QraiError::ImageProcessing("resize failed".to_string());
    assert!(err.message().contains("Image processing error"));
}

#[test]
fn error_error_display_image_load() {
    let err = QraiError::ImageLoad("invalid format".to_string());
    let msg = err.message();
    assert!(msg.contains("Failed to load image"));
    assert!(msg.contains("invalid format"));
}

#[test]
fn error_error_display_decode_failed() {
    let err = QraiError::DecodeFailed;
    assert!(err.message().contains("No QR code"));
}

#[test]
fn error_error_display_io() {
    let err = QraiError::Io("file not found".to_string());
    assert!(err.message().contains("IO error"));
}

#[test]
fn error_error_display_image_processing() {
    let err = QraiError::ImageProcessing("resize failed".to_string());
    assert!(err.message().contains("Image processing error"));
}

#[test]
fn error_display_dimensions_too_large() {
    let err = QraiError::DimensionsTooLarge { width: 20000, height: 30, max_dimension: 10000 };
    assert!(err.message().contains("Image too large"));
}

#[test]
fn error_display_buffer_mismatch() {
    let err = QraiError::BufferMismatch { expected: 300, actual: 100 };
    assert!(err.message().contains("image buffer"));
}
