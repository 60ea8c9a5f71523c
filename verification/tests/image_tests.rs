use base64::Engine;
use mission_board::base64_image::{Base64Image, ImageError};

// The magic bytes that identify a PNG and a JPEG file.
const PNG_MAGIC: [u8; 8] = [0x89, 0x50, 0x4e, 0x47, 0x0d, 0x0a, 0x1a, 0x0a];
const JPEG_MAGIC: [u8; 4] = [0xff, 0xd8, 0xff, 0xe0];

fn encode(bytes: &[u8]) -> String {
    base64::engine::general_purpose::STANDARD.encode(bytes)
}

#[test]
fn accepts_png_payload_and_rebuilds_data_url() {
    let payload = encode(&PNG_MAGIC);
    let data = format!("data:image/png;base64,{payload}");
    let image = Base64Image::new(&data).unwrap();
    assert_eq!(image.into_inner(), format!("data:image/png;base64,{payload}"));
}

#[test]
fn accepts_bare_base64_without_header() {
    let payload = encode(&JPEG_MAGIC);
    let image = Base64Image::new(&payload).unwrap();
    // The sniffed type is spelled into the stored data URL.
    assert_eq!(image.into_inner(), format!("data:image/jpeg;base64,{payload}"));
}

#[test]
fn header_mime_is_ignored_in_favor_of_sniffed_type() {
    let payload = encode(&PNG_MAGIC);
    let data = format!("data:image/jpeg;base64,{payload}");
    let image = Base64Image::new(&data).unwrap();
    assert_eq!(image.into_inner(), format!("data:image/png;base64,{payload}"));
}

#[test]
fn rejects_empty_input() {
    let r = Base64Image::new(&String::new());
    assert_eq!(r.unwrap_err(), ImageError::Empty);
    assert_eq!(ImageError::Empty.message(), "Base64Image is empty !!");
}

#[test]
fn rejects_invalid_base64() {
    let data = String::from("data:image/png;base64,!!!not-base64!!!");
    let r = Base64Image::new(&data);
    assert_eq!(r.unwrap_err(), ImageError::Invalid);
    assert_eq!(ImageError::Invalid.message(), "Invalid base64 image data.");
}

#[test]
fn rejects_bytes_of_no_known_type() {
    let payload = encode(b"plain text, no magic");
    let data = format!("data:image/png;base64,{payload}");
    assert_eq!(Base64Image::new(&data).unwrap_err(), ImageError::Invalid);
}

#[test]
fn rejects_known_but_unaccepted_type() {
    // A GIF sniffs fine but only PNG and JPEG are accepted.
    let payload = encode(b"GIF89a\x01\x00\x01\x00");
    let data = format!("data:image/gif;base64,{payload}");
    assert_eq!(Base64Image::new(&data).unwrap_err(), ImageError::Invalid);
}
