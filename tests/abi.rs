use mxchip_wnet::{decode_text, payload_len, write_version};

#[test]
fn negative_payload_length_covers_nothing() {
    assert_eq!(payload_len(-5), 0);
    assert_eq!(payload_len(i32::MIN), 0);
    assert_eq!(payload_len(0), 0);
    assert_eq!(payload_len(17), 17);
}

#[test]
fn version_buffer_is_zeroed_and_filled() {
    let mut out = [9i8; 10];
    write_version(&mut out, "wnet 1.0");
    assert_eq!(out, [119, 110, 101, 116, 32, 49, 46, 48, 0, 0]);
}

#[test]
fn version_buffer_truncates() {
    let mut out = [9i8; 4];
    write_version(&mut out, "mxchip_wnet 0.1.0");
    assert_eq!(out, [109, 120, 99, 0]);
}

#[test]
fn payload_text_is_decoded() {
    assert_eq!(decode_text(b"hello"), Some("hello"));
    assert_eq!(decode_text(&[0xE2, 0x82, 0xAC]), Some("\u{20ac}"));
    assert_eq!(decode_text(b""), Some(""));
}

#[test]
fn malformed_payload_text_is_refused() {
    assert_eq!(decode_text(&[0xFF, 0x41]), None);
    assert_eq!(decode_text(&[0xC3]), None);
}
