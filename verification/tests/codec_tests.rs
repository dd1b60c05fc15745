use noise::noise_codec::NoiseCodec;
use noise::noise_main::{HandshakeAction, NoiseHandshake};
use noise::wrapper::{HandshakeParams, NoiseError};
use noise::wrapper::{MAX_CHUNK_PLAINTEXT_LENGTH, TAG_LENGTH, TRANSPORT_HEADER_LENGTH};

fn params_with_max(max_message_len: u32) -> HandshakeParams {
    HandshakeParams {
        max_message_len,
        secret: b"secret secret secret key secrets".to_vec(),
    }
}

fn run_handshake() -> (NoiseCodec, NoiseCodec) {
    run_handshake_with_max(1024)
}

fn run_handshake_with_max(max_message_len: u32) -> (NoiseCodec, NoiseCodec) {
    let p = params_with_max(max_message_len);
    let mut ini = NoiseHandshake::send(&p).unwrap();
    let mut res = NoiseHandshake::listen(&p).unwrap();
    for _ in 0..3 {
        if ini.next_action() == HandshakeAction::SendMessage {
            let frame = ini.write_framed_message().unwrap();
            let payload = frame[2..].to_vec();
            res.read_framed_payload(&payload).unwrap();
        } else {
            let frame = res.write_framed_message().unwrap();
            let payload = frame[2..].to_vec();
            ini.read_framed_payload(&payload).unwrap();
        }
    }
    (ini.finalize().unwrap(), res.finalize().unwrap())
}

fn patterned(len: usize) -> Vec<u8> {
    (0..len).map(|i| (i % 251) as u8).collect()
}

fn chunks(len: usize) -> usize {
    if len == 0 {
        1
    } else {
        (len + MAX_CHUNK_PLAINTEXT_LENGTH - 1) / MAX_CHUNK_PLAINTEXT_LENGTH
    }
}

fn round_trip_one(len: usize) {
    let (mut a, mut b) = run_handshake_with_max(262144);
    let msg = patterned(len);
    let mut buf: Vec<u8> = Vec::new();
    a.encode(&msg, &mut buf).unwrap();
    assert_eq!(buf.len(), TRANSPORT_HEADER_LENGTH + len + TAG_LENGTH * chunks(len));
    let got = b.decode(&mut buf).unwrap().unwrap();
    assert_eq!(got, msg);
    assert!(buf.is_empty());
}

#[test]
fn test_round_trip_empty_message() {
    round_trip_one(0);
}

#[test]
fn test_round_trip_small_messages() {
    round_trip_one(1);
    round_trip_one(2);
    round_trip_one(1024);
}

#[test]
fn test_round_trip_chunk_boundaries() {
    // One byte below, exactly at, and one byte beyond the per-chunk maximum.
    round_trip_one(MAX_CHUNK_PLAINTEXT_LENGTH - 1);
    round_trip_one(MAX_CHUNK_PLAINTEXT_LENGTH);
    round_trip_one(MAX_CHUNK_PLAINTEXT_LENGTH + 1);
}

#[test]
fn test_round_trip_long_messages() {
    // An exact multiple of the per-chunk maximum and one byte beyond it.
    round_trip_one(2 * MAX_CHUNK_PLAINTEXT_LENGTH);
    round_trip_one(2 * MAX_CHUNK_PLAINTEXT_LENGTH + 1);
}

#[test]
fn test_decode_incomplete_frame() {
    let (mut a, mut b) = run_handshake();
    let msg = patterned(100);
    let mut full: Vec<u8> = Vec::new();
    a.encode(&msg, &mut full).unwrap();

    // Fewer bytes than the header: no message, nothing consumed.
    let mut buf = full[0..3].to_vec();
    assert!(b.decode(&mut buf).unwrap().is_none());
    assert_eq!(buf, full[0..3].to_vec());

    // A header but fewer payload bytes than it declares.
    let mut buf = full[0..full.len() - 1].to_vec();
    assert!(b.decode(&mut buf).unwrap().is_none());
    assert_eq!(buf.len(), full.len() - 1);

    // The whole frame: the message comes out and the buffer empties.
    let mut buf = full;
    let got = b.decode(&mut buf).unwrap().unwrap();
    assert_eq!(got, msg);
    assert!(buf.is_empty());
}

#[test]
fn test_decode_two_messages_in_order() {
    let (mut a, mut b) = run_handshake();
    let m1 = patterned(10);
    let m2 = patterned(500);
    let mut buf: Vec<u8> = Vec::new();
    a.encode(&m1, &mut buf).unwrap();
    a.encode(&m2, &mut buf).unwrap();
    assert_eq!(b.decode(&mut buf).unwrap().unwrap(), m1);
    assert_eq!(b.decode(&mut buf).unwrap().unwrap(), m2);
    assert!(buf.is_empty());
}

#[test]
fn test_tampered_chunk_rejected() {
    // Flipping any bit of the ciphertext makes decoding fail; it never
    // yields wrong plaintext. Tried at the front, in the middle and on the
    // trailing tag.
    let positions = |len: usize| {
        vec![
            TRANSPORT_HEADER_LENGTH,
            TRANSPORT_HEADER_LENGTH + len / 2,
            TRANSPORT_HEADER_LENGTH + len - 1,
        ]
    };
    let msg = patterned(300);
    let mut probe: Vec<u8> = Vec::new();
    let (mut a0, _b0) = run_handshake();
    a0.encode(&msg, &mut probe).unwrap();
    let ct_len = probe.len() - TRANSPORT_HEADER_LENGTH;

    for pos in positions(ct_len) {
        for bit in 0..8 {
            let (mut a, mut b) = run_handshake();
            let mut buf: Vec<u8> = Vec::new();
            a.encode(&msg, &mut buf).unwrap();
            let before = buf.clone();
            buf[pos] ^= 1u8 << bit;
            let r = b.decode(&mut buf);
            assert!(matches!(r, Err(NoiseError::DecryptionError)));
            // The buffer is left untouched for the caller to tear down.
            buf[pos] ^= 1u8 << bit;
            assert_eq!(buf, before);
        }
    }
}

#[test]
fn test_swapped_chunks_rejected() {
    // Chunk counters are positional: swapping two equally sized chunks of
    // one message fails authentication instead of reordering the plaintext.
    let (mut a, mut b) = run_handshake_with_max(262144);
    let msg = patterned(2 * MAX_CHUNK_PLAINTEXT_LENGTH);
    let mut buf: Vec<u8> = Vec::new();
    a.encode(&msg, &mut buf).unwrap();
    let header_end = TRANSPORT_HEADER_LENGTH;
    let chunk_len = MAX_CHUNK_PLAINTEXT_LENGTH + TAG_LENGTH;
    assert_eq!(buf.len(), header_end + 2 * chunk_len);

    let first = buf[header_end..header_end + chunk_len].to_vec();
    let second = buf[header_end + chunk_len..].to_vec();
    let mut swapped = buf[0..header_end].to_vec();
    swapped.extend_from_slice(&second);
    swapped.extend_from_slice(&first);

    let r = b.decode(&mut swapped);
    assert!(matches!(r, Err(NoiseError::DecryptionError)));
}

#[test]
fn test_sessions_without_matching_handshake_cannot_decrypt() {
    // A codec from an unrelated handshake never decrypts another pair's
    // traffic.
    let (mut a, _b) = run_handshake();
    let (_c, mut d) = run_handshake();
    let msg = patterned(64);
    let mut buf: Vec<u8> = Vec::new();
    a.encode(&msg, &mut buf).unwrap();
    let r = d.decode(&mut buf);
    assert!(matches!(r, Err(NoiseError::DecryptionError)));
}

#[test]
fn test_oversized_message_rejected() {
    // The decoder refuses a complete frame whose message would exceed the
    // configured bound, before decrypting anything, and leaves the buffer
    // for the caller to tear down.
    let (mut a, mut b) = run_handshake();
    let msg = patterned(2000);
    let mut buf: Vec<u8> = Vec::new();
    a.encode(&msg, &mut buf).unwrap();
    let before = buf.clone();
    let r = b.decode(&mut buf);
    assert!(matches!(r, Err(NoiseError::SizeViolation(2000))));
    assert_eq!(buf, before);

    // The sender's counter advanced for the dropped frame, so the stream is
    // no longer resynchronizable: the next message fails authentication and
    // the connection must be torn down, as the error taxonomy demands.
    let small = patterned(1000);
    let mut buf2: Vec<u8> = Vec::new();
    a.encode(&small, &mut buf2).unwrap();
    let got = b.decode(&mut buf2);
    assert!(matches!(got, Err(NoiseError::DecryptionError)));
}

#[test]
fn test_codec_carries_configured_bound() {
    let (a, b) = run_handshake();
    assert_eq!(a.max_message_len(), 1024);
    assert_eq!(b.max_message_len(), 1024);
}
