use qrai_scanner::decode_only;
use qrai_scanner::validate;
use qrai_scanner::validate_fast;

fn create_test_qr() -> Vec<u8> {
    let code = qrcode::QrCode::new(b"https://example.com").unwrap();
    let img = code.render::<image::Luma<u8>>().build();

    let mut buf = Vec::new();
    let dyn_img = image::DynamicImage::ImageLuma8(img);
    dyn_img
        .write_to(&mut std::io::Cursor::new(&mut buf), image::ImageFormat::Png)
        .unwrap();
    buf
}

#[test]
fn validate_returns_full_result() {
    let qr_bytes = create_test_qr();
    let result = validate(&qr_bytes).unwrap();

    assert!(result.decodable);
    assert!(result.score > 0);
    assert!(result.content.is_some());
    assert_eq!(result.content.unwrap(), "https://example.com");
    assert!(result.metadata.is_some());
}

#[test]
fn validate_garbage_returns_error() {
    let result = validate(b"not an image at all");
    assert!(result.is_err());
}

#[test]
fn decode_only_is_fast() {
    let qr_bytes = create_test_qr();

    let start = std::time::Instant::now();
    let result = decode_only(&qr_bytes);
    let elapsed = start.elapsed();

    assert!(result.is_ok());
    assert_eq!(result.unwrap().content, "https://example.com");

    assert!(
        elapsed.as_millis() < 500,
        "decode_only took too long: {}ms",
        elapsed.as_millis()
    );
}

#[test]
fn validate_score_is_reasonable() {
    let qr_bytes = create_test_qr();
    let result = validate(&qr_bytes).unwrap();

    assert!(
        result.score >= 50,
        "Clean QR score should be >= 50, got {}",
        result.score
    );
}

#[test]
fn metadata_has_version_and_ec() {
    let qr_bytes = create_test_qr();
    let result = validate(&qr_bytes).unwrap();

    let meta = result.metadata.unwrap();
    assert!(meta.version > 0);
    assert!(meta.modules > 0);
    assert!(!meta.decoders_success.is_empty());
}

#[test]
fn validate_fast_is_faster() {
    let qr_bytes = create_test_qr();

    let _ = validate_fast(&qr_bytes);
    let _ = validate(&qr_bytes);

    let start_fast = std::time::Instant::now();
    for _ in 0..5 {
        let _ = validate_fast(&qr_bytes);
    }
    let elapsed_fast = start_fast.elapsed();

    let start_full = std::time::Instant::now();
    for _ in 0..5 {
        let _ = validate(&qr_bytes);
    }
    let elapsed_full = start_full.elapsed();

    println!("Fast: {:?}, Full: {:?}", elapsed_fast, elapsed_full);
}

#[test]
fn validate_fast_still_works() {
    let qr_bytes = create_test_qr();
    let result = validate_fast(&qr_bytes).unwrap();

    assert!(result.decodable);
    assert!(result.score > 0);
    assert!(result.content.is_some());
}
