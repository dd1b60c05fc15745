//! The transport codec: once the handshake is complete it turns the raw byte
//! stream into discrete application messages. Outbound messages are split
//! into chunks no larger than the cipher accepts, each chunk is encrypted
//! independently in order, and the concatenated ciphertext travels behind a
//! four-byte length header. Inbound frames are cut back into the same chunks
//! and decrypted in order.

use vstd::prelude::*;
use vstd::arithmetic::div_mod::{lemma_fundamental_div_mod, lemma_fundamental_div_mod_converse};
use vstd::slice::slice_subrange;
use crate::framing::{decode_u32_le, encode_u32_le, u32_from_le_bytes, u32_le_bytes};
use crate::wrapper::{
    NoiseError, TransportSession, MAX_CHUNK_PLAINTEXT_LENGTH, NOISE_MAX_MESSAGE_LENGTH,
    TAG_LENGTH, TRANSPORT_HEADER_LENGTH,
};

verus! {

/// How many chunks a message of `n` plaintext bytes is split into. An empty
/// message still yields one (empty) chunk, preserving message boundaries.
pub open spec fn chunk_count(n: int) -> int {
    if n <= 0 {
        1
    } else {
        (n + MAX_CHUNK_PLAINTEXT_LENGTH as int - 1) / (MAX_CHUNK_PLAINTEXT_LENGTH as int)
    }
}

/// The total ciphertext length for a message of `n` plaintext bytes: every
/// chunk gains an authentication tag.
pub open spec fn encrypted_len(n: int) -> int {
    n + TAG_LENGTH as int * chunk_count(n)
}

/// How many chunks a ciphertext of `c` bytes is cut into when decoding: all
/// but the last are as large as the cipher allows.
pub open spec fn ct_chunk_count(c: int) -> int {
    if c <= 0 {
        0
    } else {
        (c + NOISE_MAX_MESSAGE_LENGTH as int - 1) / (NOISE_MAX_MESSAGE_LENGTH as int)
    }
}

/// The total plaintext length recovered from a ciphertext of `c` bytes.
pub open spec fn decrypted_len(c: int) -> int {
    c - TAG_LENGTH as int * ct_chunk_count(c)
}

/// The rounded-up quotient of n by d is k exactly when n lies in the k-th
/// block of d numbers.
proof fn lemma_ceil_div(n: int, d: int, k: int)
    requires
        d > 0,
        d * (k - 1) < n,
        n <= d * k,
    ensures
        (n + d - 1) / d == k,
{
    let m = n + d - 1;
    let r = m - k * d;
    assert(0 <= r < d) by (nonlinear_arith)
        requires
            d > 0,
            d * (k - 1) < n,
            n <= d * k,
            m == n + d - 1,
            r == m - k * d,
    ;
    lemma_fundamental_div_mod_converse(m, d, k, r);
}

/// A positive message's chunk count brackets its length: the last chunk is
/// non-empty and no chunk exceeds the per-chunk maximum.
proof fn lemma_chunk_count_bounds(n: int)
    requires
        n >= 1,
    ensures
        chunk_count(n) >= 1,
        MAX_CHUNK_PLAINTEXT_LENGTH as int * (chunk_count(n) - 1) < n,
        n <= MAX_CHUNK_PLAINTEXT_LENGTH as int * chunk_count(n),
{
    let d = MAX_CHUNK_PLAINTEXT_LENGTH as int;
    let k = chunk_count(n);
    lemma_fundamental_div_mod(n + d - 1, d);
    assert(d * (k - 1) < n && n <= d * k) by (nonlinear_arith)
        requires
            d == 65519,
            n + d - 1 == d * ((n + d - 1) / d) + ((n + d - 1) % d),
            0 <= (n + d - 1) % d < d,
            k == (n + d - 1) / d,
            n >= 1,
    ;
    assert(k >= 1) by (nonlinear_arith)
        requires
            d == 65519,
            n >= 1,
            n <= d * k,
    ;
}

/// Law: encoding and decoding agree on chunk boundaries. The ciphertext
/// built from a message of length `n` is cut back into exactly the chunks
/// that produced it, so the decoder recovers exactly `n` plaintext bytes.
pub proof fn lemma_codec_length_round_trip(n: int)
    requires
        0 <= n,
    ensures
        ct_chunk_count(encrypted_len(n)) == chunk_count(n),
        decrypted_len(encrypted_len(n)) == n,
{
    let t = TAG_LENGTH as int;
    let d = NOISE_MAX_MESSAGE_LENGTH as int;
    if n == 0 {
        assert(encrypted_len(0) == t);
        lemma_ceil_div(t, d, 1);
    } else {
        let k = chunk_count(n);
        lemma_chunk_count_bounds(n);
        let c = encrypted_len(n);
        assert(d * (k - 1) < c && c <= d * k) by (nonlinear_arith)
            requires
                d == 65535,
                t == 16,
                c == n + t * k,
                k >= 1,
                (d - t) * (k - 1) < n,
                n <= (d - t) * k,
        ;
        lemma_ceil_div(c, d, k);
    }
}

/// The transport codec: encrypts and frames outbound messages, decrypts and
/// reassembles inbound frames, over one `TransportSession`.
pub struct NoiseCodec {
    max_message_len: u32,
    session: TransportSession,
}

impl NoiseCodec {
    /// The application-message bound this codec was configured with.
    pub closed spec fn spec_max_message_len(&self) -> u32 {
        self.max_message_len
    }

    /// Wraps a completed transport session with the connection's configured
    /// application-message bound.
    pub fn new(session: TransportSession, max_message_len: u32) -> (r: NoiseCodec)
        ensures
            r.spec_max_message_len() == max_message_len,
    {
        NoiseCodec { max_message_len, session }
    }

    /// The application-message bound this codec was configured with.
    pub fn max_message_len(&self) -> (r: u32)
        ensures
            r == self.spec_max_message_len(),
    {
        self.max_message_len
    }

    /// Encrypts and frames one outbound message, appending the frame to
    /// `buf`: a four-byte little-endian header holding the total ciphertext
    /// length, then one ciphertext chunk per plaintext chunk, in order. An
    /// empty message still yields one ciphertext chunk. Fails without
    /// touching `buf` when the ciphertext would not fit the header's numeric
    /// range, or when the cipher refuses a chunk.
    pub fn encode(&mut self, msg: &Vec<u8>, buf: &mut Vec<u8>) -> (r: Result<(), NoiseError>)
        ensures
            final(self).spec_max_message_len() == old(self).spec_max_message_len(),
            r.is_ok() ==> {
                &&& encrypted_len(msg@.len() as int) <= u32::MAX
                &&& final(buf)@.len() == old(buf)@.len() + TRANSPORT_HEADER_LENGTH
                    + encrypted_len(msg@.len() as int)
                &&& final(buf)@.subrange(0, old(buf)@.len() as int) == old(buf)@
                &&& final(buf)@.subrange(
                    old(buf)@.len() as int,
                    old(buf)@.len() + TRANSPORT_HEADER_LENGTH,
                ) == u32_le_bytes(encrypted_len(msg@.len() as int) as u32)
            },
            encrypted_len(msg@.len() as int) > u32::MAX ==> r == Err::<(), NoiseError>(
                NoiseError::SizeViolation(msg@.len() as usize),
            ),
            r matches Err(e) ==> e is SizeViolation || e is IoError,
            r matches Err(e) && e is SizeViolation ==> encrypted_len(msg@.len() as int)
                > u32::MAX,
            r.is_err() ==> final(buf)@ == old(buf)@,
    {
        let n = msg.len();
        let n64 = n as u64;
        if n64 > u32::MAX as u64 {
            return Err(NoiseError::SizeViolation(n));
        }
        let chunk_max64 = MAX_CHUNK_PLAINTEXT_LENGTH as u64;
        let chunks64: u64 = if n == 0 {
            1
        } else {
            (n64 + (chunk_max64 - 1)) / chunk_max64
        };
        proof {
            if n >= 1 {
                lemma_chunk_count_bounds(n as int);
            }
        }
        assert(chunks64 == chunk_count(n as int));
        let total64 = n64 + TAG_LENGTH as u64 * chunks64;
        assert(total64 == encrypted_len(n as int));
        if total64 > u32::MAX as u64 {
            return Err(NoiseError::SizeViolation(n));
        }
        let total = total64 as u32;

        let mut ct: Vec<u8> = Vec::new();
        if n == 0 {
            let empty: Vec<u8> = Vec::new();
            let mut c = self.session.encrypt_chunk(empty.as_slice())?;
            ct.append(&mut c);
        } else {
            let mut i: usize = 0;
            let mut done: usize = 0;
            while i < n
                invariant
                    self.spec_max_message_len() == old(self).spec_max_message_len(),
                    encrypted_len(n as int) <= u32::MAX,
                    n == msg@.len(),
                    1 <= n <= u32::MAX,
                    i <= n,
                    done <= chunk_count(n as int),
                    ct@.len() == i + TAG_LENGTH * done,
                    i < n ==> i == done * MAX_CHUNK_PLAINTEXT_LENGTH,
                    i == n ==> done == chunk_count(n as int),
                decreases n - i,
            {
                let ghost i0 = i as int;
                let ghost done0 = done as int;
                let remaining = n - i;
                let size = if remaining < MAX_CHUNK_PLAINTEXT_LENGTH {
                    remaining
                } else {
                    MAX_CHUNK_PLAINTEXT_LENGTH
                };
                let chunk = slice_subrange(msg.as_slice(), i, i + size);
                let mut c = self.session.encrypt_chunk(chunk)?;
                ct.append(&mut c);
                i = i + size;
                done = done + 1;
                proof {
                    let d = MAX_CHUNK_PLAINTEXT_LENGTH as int;
                    lemma_chunk_count_bounds(n as int);
                    if i < n {
                        assert(i == done * d) by (nonlinear_arith)
                            requires
                                i == i0 + d,
                                i0 == done0 * d,
                                done == done0 + 1,
                        ;
                        assert(done <= chunk_count(n as int)) by (nonlinear_arith)
                            requires
                                i == done * d,
                                i < n,
                                n <= d * chunk_count(n as int),
                                d > 0,
                        ;
                    } else {
                        assert(d * (done - 1) < n && n <= d * done) by (nonlinear_arith)
                            requires
                                i0 == done0 * d,
                                n == i0 + size,
                                1 <= size <= d,
                                done == done0 + 1,
                                n == i,
                        ;
                        lemma_ceil_div(n as int, d, done as int);
                    }
                }
            }
        }
        assert(ct@.len() == encrypted_len(n as int));

        let ghost buf0 = buf@;
        let mut header = encode_u32_le(total);
        buf.append(&mut header);
        buf.append(&mut ct);
        proof {
            assert(buf@.subrange(0, buf0.len() as int) =~= buf0);
            assert(buf@.subrange(buf0.len() as int, buf0.len() + TRANSPORT_HEADER_LENGTH) =~= (
            u32_le_bytes(total)));
        }
        Ok(())
    }

    /// Decodes at most one inbound message from the front of `buf`. While
    /// fewer bytes than the header declares are available, nothing is
    /// consumed and no message is returned. A complete frame whose message
    /// would exceed the configured application-message bound is rejected
    /// before any chunk is decrypted. Otherwise exactly the frame is
    /// consumed: its ciphertext is cut into chunks no larger than the cipher
    /// allows and each is decrypted in order. A chunk that fails
    /// authentication fails the call, and on any failure `buf` is left
    /// untouched.
    pub fn decode(&mut self, buf: &mut Vec<u8>) -> (r: Result<Option<Vec<u8>>, NoiseError>)
        ensures
            final(self).spec_max_message_len() == old(self).spec_max_message_len(),
            r matches Ok(Some(m)) ==> {
                let declared = u32_from_le_bytes(
                    old(buf)@.subrange(0, TRANSPORT_HEADER_LENGTH as int),
                );
                &&& old(buf)@.len() >= TRANSPORT_HEADER_LENGTH + declared
                &&& m@.len() == decrypted_len(declared)
                &&& m@.len() <= old(self).spec_max_message_len()
                &&& final(buf)@ == old(buf)@.skip(TRANSPORT_HEADER_LENGTH + declared)
            },
            r matches Ok(o) && o is None ==> final(buf)@ == old(buf)@ && (old(buf)@.len()
                < TRANSPORT_HEADER_LENGTH || old(buf)@.len() < TRANSPORT_HEADER_LENGTH
                + u32_from_le_bytes(old(buf)@.subrange(0, TRANSPORT_HEADER_LENGTH as int))),
            old(buf)@.len() < TRANSPORT_HEADER_LENGTH ==> r == Ok::<Option<Vec<u8>>, NoiseError>(
                None,
            ),
            old(buf)@.len() >= TRANSPORT_HEADER_LENGTH && old(buf)@.len() < TRANSPORT_HEADER_LENGTH
                + u32_from_le_bytes(old(buf)@.subrange(0, TRANSPORT_HEADER_LENGTH as int)) ==> r
                == Ok::<Option<Vec<u8>>, NoiseError>(None),
            ({
                let declared = u32_from_le_bytes(
                    old(buf)@.subrange(0, TRANSPORT_HEADER_LENGTH as int),
                );
                old(buf)@.len() >= TRANSPORT_HEADER_LENGTH && old(buf)@.len()
                    >= TRANSPORT_HEADER_LENGTH + declared && decrypted_len(declared) > old(
                    self,
                ).spec_max_message_len()
            }) ==> r == Err::<Option<Vec<u8>>, NoiseError>(
                NoiseError::SizeViolation(
                    decrypted_len(
                        u32_from_le_bytes(old(buf)@.subrange(0, TRANSPORT_HEADER_LENGTH as int)),
                    ) as usize,
                ),
            ),
            r matches Err(e) && e is SizeViolation ==> decrypted_len(
                u32_from_le_bytes(old(buf)@.subrange(0, TRANSPORT_HEADER_LENGTH as int)),
            ) > old(self).spec_max_message_len(),
            r matches Err(e) ==> (e == NoiseError::DecryptionError || e is SizeViolation)
                && final(buf)@ == old(buf)@,
    {
        if buf.len() < TRANSPORT_HEADER_LENGTH {
            return Ok(None);
        }
        let declared32 = decode_u32_le(buf[0], buf[1], buf[2], buf[3]);
        proof {
            assert(buf@.subrange(0, TRANSPORT_HEADER_LENGTH as int) =~= seq![
                buf@[0],
                buf@[1],
                buf@[2],
                buf@[3],
            ]);
        }
        if (buf.len() as u64) < TRANSPORT_HEADER_LENGTH as u64 + declared32 as u64 {
            return Ok(None);
        }
        let declared = declared32 as usize;
        let total = TRANSPORT_HEADER_LENGTH + declared;

        let declared64 = declared32 as u64;
        let ct_chunks64: u64 = if declared == 0 {
            0
        } else {
            (declared64 + (NOISE_MAX_MESSAGE_LENGTH as u64 - 1)) / (NOISE_MAX_MESSAGE_LENGTH
                as u64)
        };
        assert(ct_chunks64 == ct_chunk_count(declared as int));
        if declared64 > self.max_message_len as u64 + TAG_LENGTH as u64 * ct_chunks64 {
            let plain = (declared64 - TAG_LENGTH as u64 * ct_chunks64) as usize;
            return Err(NoiseError::SizeViolation(plain));
        }

        let mut msg: Vec<u8> = Vec::new();
        let mut j: usize = TRANSPORT_HEADER_LENGTH;
        let mut done: usize = 0;
        while j < total
            invariant
                self.spec_max_message_len() == old(self).spec_max_message_len(),
                buf@ == old(buf)@,
                total == TRANSPORT_HEADER_LENGTH + declared,
                declared == u32_from_le_bytes(old(buf)@.subrange(0, TRANSPORT_HEADER_LENGTH as int)),
                declared <= u32::MAX,
                decrypted_len(declared as int) <= old(self).spec_max_message_len(),
                total <= buf@.len(),
                TRANSPORT_HEADER_LENGTH <= j <= total,
                msg@.len() + TAG_LENGTH * done == j - TRANSPORT_HEADER_LENGTH,
                j < total ==> j - TRANSPORT_HEADER_LENGTH == done * NOISE_MAX_MESSAGE_LENGTH,
                j == total ==> done == ct_chunk_count(declared as int),
            decreases total - j,
        {
            let ghost j0 = j as int;
            let ghost done0 = done as int;
            let remaining = total - j;
            let size = if remaining < NOISE_MAX_MESSAGE_LENGTH {
                remaining
            } else {
                NOISE_MAX_MESSAGE_LENGTH
            };
            let chunk = slice_subrange(buf.as_slice(), j, j + size);
            let mut pt = self.session.decrypt_chunk(chunk)?;
            msg.append(&mut pt);
            j = j + size;
            done = done + 1;
            proof {
                let d = NOISE_MAX_MESSAGE_LENGTH as int;
                if j < total {
                    assert(j - TRANSPORT_HEADER_LENGTH == done * d) by (nonlinear_arith)
                        requires
                            j == j0 + d,
                            j0 - TRANSPORT_HEADER_LENGTH as int == done0 * d,
                            done == done0 + 1,
                    ;
                } else {
                    assert(d * (done - 1) < declared && declared <= d * done)
                        by (nonlinear_arith)
                        requires
                            j0 - TRANSPORT_HEADER_LENGTH as int == done0 * d,
                            declared == (j0 - TRANSPORT_HEADER_LENGTH as int) + size,
                            1 <= size <= d,
                            done == done0 + 1,
                            j == total,
                            total == TRANSPORT_HEADER_LENGTH as int + declared,
                    ;
                    lemma_ceil_div(declared as int, d, done as int);
                }
            }
        }
        let tail = buf.split_off(total);
        *buf = tail;
        Ok(Some(msg))
    }
}

} // verus!
