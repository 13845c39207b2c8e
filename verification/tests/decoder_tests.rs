use qrai_scanner::decoder::decode_with_rqrr;
use qrai_scanner::decoder::decode_with_rxing;
use qrai_scanner::decoder::multi_decode;
use qrai_scanner::raster::load_raster;

// Encode a QR code for "https://example.com" as PNG bytes.
fn create_test_qr() -> Vec<u8> {
    let code = qrcode::QrCode::new(b"https://example.com").unwrap();
    let img = code.render::<image::Luma<u8>>().build();

    let mut buf = Vec::new();
    let dyn_img = image::DynamicImage::ImageLuma8(img);
    dyn_img
        .write_to(&mut std::io::Cursor::new(&mut buf), image::ImageFormat::Png)
        .unwrap();
    buf
}

#[test]
fn decode_simple_qr_with_rxing() {
    let qr_bytes = create_test_qr();
    let img = load_raster(&qr_bytes).unwrap();
    let result = decode_with_rxing(&img);

    assert!(result.is_ok(), "rxing should decode simple QR");
    assert_eq!(result.unwrap().content, "https://example.com");
}

#[test]
fn decode_simple_qr_with_rqrr() {
    let qr_bytes = create_test_qr();
    let img = load_raster(&qr_bytes).unwrap();
    let result = decode_with_rqrr(&img);

    assert!(result.is_ok(), "rqrr should decode simple QR");
    assert_eq!(result.unwrap().content, "https://example.com");
}

#[test]
fn multi_decode_tries_both() {
    let qr_bytes = create_test_qr();
    let result = multi_decode(&qr_bytes).unwrap();

    assert!(!result.decoders_success.is_empty());
    assert_eq!(result.content, "https://example.com");

    assert!(
        result.decoders_success.contains(&"rxing".to_string())
            || result.decoders_success.contains(&"rqrr".to_string())
    );
}

#[test]
fn multi_decode_provides_metadata() {
    let qr_bytes = create_test_qr();
    let result = multi_decode(&qr_bytes).unwrap();

    assert!(result.metadata.is_some());
    let meta = result.metadata.unwrap();

    assert!(meta.version > 0 && meta.version <= 40);
    assert!(meta.modules > 0);
}

#[test]
fn decode_invalid_image_returns_error() {
    let garbage = b"not an image at all";
    let result = multi_decode(garbage);
    assert!(result.is_err());
}

#[test]
fn decode_image_without_qr_returns_error() {
    let blank = image::DynamicImage::new_luma8(100, 100);
    let mut buf = Vec::new();
    blank
        .write_to(&mut std::io::Cursor::new(&mut buf), image::ImageFormat::Png)
        .unwrap();

    let result = multi_decode(&buf);
    assert!(result.is_err());
}
