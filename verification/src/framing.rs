//! Wire framing: every message travels as a length header followed by that
//! many payload bytes. Handshake frames carry a two-byte little-endian
//! header, transport frames a four-byte one.

use vstd::prelude::*;
use vstd::arithmetic::div_mod::lemma_fundamental_div_mod;
use crate::wrapper::{NoiseError, HANDSHAKE_HEADER_LENGTH, NOISE_MAX_MESSAGE_LENGTH};

verus! {

/// The two little-endian bytes that encode a 16-bit length.
pub open spec fn u16_le_bytes(n: u16) -> Seq<u8> {
    seq![(n as int % 256) as u8, (n as int / 256) as u8]
}

/// The 16-bit value held by two little-endian bytes.
pub open spec fn u16_from_le_bytes(s: Seq<u8>) -> int {
    s[0] + 256 * s[1]
}

/// The four little-endian bytes that encode a 32-bit length.
pub open spec fn u32_le_bytes(n: u32) -> Seq<u8> {
    seq![
        (n as int % 256) as u8,
        (n as int / 256 % 256) as u8,
        (n as int / 65536 % 256) as u8,
        (n as int / 16777216 % 256) as u8,
    ]
}

/// The 32-bit value held by four little-endian bytes.
pub open spec fn u32_from_le_bytes(s: Seq<u8>) -> int {
    s[0] + 256 * (s[1] + 256 * (s[2] + 256 * s[3]))
}

/// Law: reading back the two little-endian bytes of a 16-bit length yields
/// that length.
pub proof fn lemma_u16_le_round_trip(n: u16)
    ensures
        u16_from_le_bytes(u16_le_bytes(n)) == n,
{
    lemma_fundamental_div_mod(n as int, 256);
}

/// Law: reading back the four little-endian bytes of a 32-bit length yields
/// that length.
pub proof fn lemma_u32_le_round_trip(n: u32)
    ensures
        u32_from_le_bytes(u32_le_bytes(n)) == n,
{
    let m = n as int;
    lemma_fundamental_div_mod(m, 256);
    lemma_fundamental_div_mod(m / 256, 256);
    lemma_fundamental_div_mod(m / 65536, 256);
    assert(m / 256 / 256 == m / 65536) by (nonlinear_arith);
    assert(m / 65536 / 256 == m / 16777216) by (nonlinear_arith);
    assert(m / 16777216 % 256 == m / 16777216) by {
        assert(0 <= m / 16777216 < 256) by (nonlinear_arith)
            requires 0 <= m < 0x100000000;
    }
}

/// Writes a 16-bit length as its two little-endian bytes.
pub fn encode_u16_le(n: u16) -> (r: Vec<u8>)
    ensures
        r@ == u16_le_bytes(n),
{
    let mut r: Vec<u8> = Vec::new();
    r.push((n % 256) as u8);
    r.push((n / 256) as u8);
    assert(r@ =~= u16_le_bytes(n));
    r
}

/// Reads the 16-bit length held by two little-endian bytes.
pub fn decode_u16_le(b0: u8, b1: u8) -> (r: u16)
    ensures
        r == u16_from_le_bytes(seq![b0, b1]),
{
    b0 as u16 + 256 * (b1 as u16)
}

/// Writes a 32-bit length as its four little-endian bytes.
pub fn encode_u32_le(n: u32) -> (r: Vec<u8>)
    ensures
        r@ == u32_le_bytes(n),
{
    let mut r: Vec<u8> = Vec::new();
    r.push((n % 256) as u8);
    r.push((n / 256 % 256) as u8);
    r.push((n / 65536 % 256) as u8);
    r.push((n / 16777216 % 256) as u8);
    assert(r@ =~= u32_le_bytes(n));
    r
}

/// Reads the 32-bit length held by four little-endian bytes.
pub fn decode_u32_le(b0: u8, b1: u8, b2: u8, b3: u8) -> (r: u32)
    ensures
        r == u32_from_le_bytes(seq![b0, b1, b2, b3]),
{
    b0 as u32 + 256 * (b1 as u32 + 256 * (b2 as u32 + 256 * (b3 as u32)))
}

/// Puts the two-byte length header in front of a handshake message. Fails
/// when the message does not fit the header's numeric range.
pub fn frame_handshake_message(msg: &Vec<u8>) -> (r: Result<Vec<u8>, NoiseError>)
    ensures
        msg@.len() <= NOISE_MAX_MESSAGE_LENGTH ==> (r matches Ok(f)
            && f@ == u16_le_bytes(msg@.len() as u16) + msg@),
        msg@.len() > NOISE_MAX_MESSAGE_LENGTH ==> r == Err::<Vec<u8>, NoiseError>(
            NoiseError::SizeViolation(msg@.len() as usize),
        ),
{
    if msg.len() > NOISE_MAX_MESSAGE_LENGTH {
        return Err(NoiseError::SizeViolation(msg.len()));
    }
    let mut frame = encode_u16_le(msg.len() as u16);
    let mut body = msg.clone();
    frame.append(&mut body);
    assert(frame@ =~= u16_le_bytes(msg@.len() as u16) + msg@);
    Ok(frame)
}

/// Reads the message length out of a two-byte handshake frame header.
pub fn parse_handshake_header(hdr: &Vec<u8>) -> (n: usize)
    requires
        hdr@.len() == HANDSHAKE_HEADER_LENGTH,
    ensures
        n == u16_from_le_bytes(hdr@),
{
    let b0 = hdr[0];
    let b1 = hdr[1];
    assert(hdr@ =~= seq![b0, b1]);
    decode_u16_le(b0, b1) as usize
}

} // verus!
