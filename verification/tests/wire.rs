use std::io::Read;

use flate2::read::DeflateDecoder;
use wiiload::encode_compressed;
use wiiload::encode_plain;
use wiiload::encode_transfer;
use wiiload::normalize_filename;
use wiiload::WiiloadError;

fn be32(bytes: &[u8]) -> u32 {
    assert_eq!(bytes.len(), 4);
    ((bytes[0] as u32) << 24) | ((bytes[1] as u32) << 16) | ((bytes[2] as u32) << 8)
        | (bytes[3] as u32)
}

fn inflate(payload: &[u8]) -> Vec<u8> {
    let mut decoder = DeflateDecoder::new(payload);
    let mut out = Vec::new();
    decoder.read_to_end(&mut out).unwrap();
    out
}

#[test]
fn port_is_fixed() {
    assert_eq!(wiiload::WIILOAD_PORT, 4299);
}

#[test]
fn header_exact_for_app_dol() {
    let body = vec![0u8; 100];
    let wire = encode_plain(b"app.dol", &body).unwrap();

    let mut expected: Vec<u8> = Vec::new();
    expected.extend_from_slice(b"HAXX");
    expected.extend_from_slice(&[0x00, 0x05]);
    expected.push(8);
    expected.extend_from_slice(&[0x00, 0x00, 0x00, 0x64]);
    expected.extend_from_slice(&[0x00, 0x00, 0x00, 0x00]);
    expected.extend_from_slice(&body);
    expected.extend_from_slice(b"app.dol\0");
    assert_eq!(wire, expected);
}

#[test]
fn null_termination_idempotent() {
    let body = b"payload bytes";
    let once = encode_plain(b"boot.dol", body).unwrap();
    let twice = encode_plain(b"boot.dol\0", body).unwrap();
    assert_eq!(once, twice);
    assert!(once.ends_with(b"boot.dol\0"));
    assert!(!once.ends_with(b"boot.dol\0\0"));
}

#[test]
fn normalize_appends_exactly_one_null() {
    assert_eq!(normalize_filename(b"boot.dol"), b"boot.dol\0");
    assert_eq!(normalize_filename(b"boot.dol\0"), b"boot.dol\0");
    assert_eq!(normalize_filename(b""), b"\0");
}

#[test]
fn plain_path_size_fields() {
    let body = b"0123456789abcdef";
    let wire = encode_plain(b"x.dol", body).unwrap();
    assert_eq!(be32(&wire[7..11]), body.len() as u32);
    assert_eq!(be32(&wire[11..15]), 0);
    assert_eq!(&wire[15..15 + body.len()], body);
}

#[test]
fn plain_path_empty_body() {
    let wire = encode_plain(b"x.dol", b"").unwrap();
    assert_eq!(be32(&wire[7..11]), 0);
    assert_eq!(be32(&wire[11..15]), 0);
    assert_eq!(wire.len(), 15 + 6);
    assert!(wire.ends_with(b"x.dol\0"));
}

#[test]
fn empty_filename_becomes_lone_null() {
    let wire = encode_plain(b"", b"abc").unwrap();
    assert_eq!(wire[6], 1);
    assert_eq!(wire.last(), Some(&0u8));
    assert_eq!(wire.len(), 15 + 3 + 1);
}

#[test]
fn explicit_uncompressed_size_field() {
    let wire = encode_transfer(b"x.dol", b"abc", 0x01020304).unwrap();
    assert_eq!(&wire[11..15], &[0x01, 0x02, 0x03, 0x04]);
    assert_eq!(be32(&wire[7..11]), 3);
}

#[test]
fn compressed_path_fields_and_round_trip() {
    let body = vec![0u8; 100];
    let wire = encode_compressed(b"app.dol", &body).unwrap();

    assert_eq!(&wire[0..4], b"HAXX");
    assert_eq!(&wire[4..6], &[0x00, 0x05]);
    assert_eq!(wire[6], 8);
    assert_eq!(be32(&wire[11..15]), 100);

    let payload_len = be32(&wire[7..11]) as usize;
    assert_eq!(wire.len(), 15 + payload_len + 8);
    let payload = &wire[15..15 + payload_len];
    assert_ne!(payload, &body[..]);
    assert_eq!(inflate(payload), body);
    assert!(wire.ends_with(b"app.dol\0"));
}

#[test]
fn compressed_round_trip_text() {
    let body: Vec<u8> = b"Hello World! ".repeat(20);
    let wire = encode_compressed(b"hello.dol", &body).unwrap();
    assert_eq!(be32(&wire[11..15]), body.len() as u32);
    let payload_len = be32(&wire[7..11]) as usize;
    assert_eq!(inflate(&wire[15..15 + payload_len]), body);
}

#[test]
fn compressed_empty_body() {
    let wire = encode_compressed(b"x.dol", b"").unwrap();
    assert_eq!(be32(&wire[11..15]), 0);
    let payload_len = be32(&wire[7..11]) as usize;
    assert_eq!(inflate(&wire[15..15 + payload_len]), b"");
}

#[test]
fn overlong_filename_rejected() {
    let name = vec![b'a'; 300];
    let r = encode_plain(&name, b"abc");
    assert!(matches!(r, Err(WiiloadError::TryFromIntError)));
    let r = encode_compressed(&name, b"abc");
    assert!(matches!(r, Err(WiiloadError::TryFromIntError)));
}

#[test]
fn filename_length_boundary() {
    // 254 bytes plus the appended null: 255 fits the one-byte field.
    let just_fits = vec![b'a'; 254];
    assert!(encode_plain(&just_fits, b"x").is_ok());

    // 255 bytes already ending in null: nothing appended, still fits.
    let mut terminated = vec![b'a'; 254];
    terminated.push(0);
    let wire = encode_plain(&terminated, b"x").unwrap();
    assert_eq!(wire[6], 255);

    // 255 bytes without a null: normalizing makes 256, one too many.
    let too_long = vec![b'a'; 255];
    assert!(matches!(encode_plain(&too_long, b"x"), Err(WiiloadError::TryFromIntError)));
}
