use noise::framing::{decode_u16_le, decode_u32_le, encode_u16_le, encode_u32_le,
    frame_handshake_message, parse_handshake_header};
use noise::wrapper::{validate_handshake_length, NoiseError};

#[test]
fn test_u16_le_exact_bytes() {
    assert_eq!(encode_u16_le(0), vec![0, 0]);
    assert_eq!(encode_u16_le(1), vec![1, 0]);
    assert_eq!(encode_u16_le(300), vec![44, 1]);
    assert_eq!(encode_u16_le(65535), vec![255, 255]);
}

#[test]
fn test_u16_le_round_trip() {
    for n in [0u16, 1, 255, 256, 300, 32768, 65535] {
        let b = encode_u16_le(n);
        assert_eq!(decode_u16_le(b[0], b[1]), n);
    }
}

#[test]
fn test_u32_le_exact_bytes() {
    assert_eq!(encode_u32_le(0), vec![0, 0, 0, 0]);
    assert_eq!(encode_u32_le(65535), vec![255, 255, 0, 0]);
    assert_eq!(encode_u32_le(65536), vec![0, 0, 1, 0]);
    assert_eq!(encode_u32_le(0xDEADBEEF), vec![0xEF, 0xBE, 0xAD, 0xDE]);
}

#[test]
fn test_u32_le_round_trip() {
    for n in [0u32, 1, 255, 65535, 65536, 16777216, u32::MAX] {
        let b = encode_u32_le(n);
        assert_eq!(decode_u32_le(b[0], b[1], b[2], b[3]), n);
    }
}

#[test]
fn test_frame_handshake_message_exact_bytes() {
    let msg = vec![9u8; 300];
    let frame = frame_handshake_message(&msg).unwrap();
    assert_eq!(frame.len(), 302);
    assert_eq!(&frame[0..2], &[44, 1]);
    assert_eq!(&frame[2..], &msg[..]);
}

#[test]
fn test_frame_handshake_message_too_long() {
    let msg = vec![0u8; 65536];
    let r = frame_handshake_message(&msg);
    assert!(matches!(r, Err(NoiseError::SizeViolation(65536))));
}

#[test]
fn test_parse_handshake_header() {
    let msg = vec![7u8; 48];
    let frame = frame_handshake_message(&msg).unwrap();
    let hdr = frame[0..2].to_vec();
    assert_eq!(parse_handshake_header(&hdr), 48);
}

#[test]
fn test_validate_handshake_length_bounds() {
    assert!(matches!(validate_handshake_length(0), Err(NoiseError::SizeViolation(0))));
    assert!(matches!(validate_handshake_length(31), Err(NoiseError::SizeViolation(31))));
    assert!(validate_handshake_length(32).is_ok());
    assert!(validate_handshake_length(1024).is_ok());
    assert!(validate_handshake_length(65535).is_ok());
    assert!(matches!(validate_handshake_length(65536), Err(NoiseError::SizeViolation(65536))));
}
