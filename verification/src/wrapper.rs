//! The handshake session wrapper: one side of the Noise handshake, driven
//! message by message, with strict sequencing and size validation in front of
//! the cryptographic engine, and the transport session it turns into.

use vstd::prelude::*;

verus! {

/// Largest Noise message, handshake or transport chunk, on the wire.
pub const NOISE_MAX_MESSAGE_LENGTH: usize = 65535;

/// Authentication tag appended to every encrypted chunk.
pub const TAG_LENGTH: usize = 16;

/// Smallest handshake message the validation layer lets through.
pub const NOISE_MIN_HANDSHAKE_MESSAGE_LENGTH: usize = 32;

/// Length prefix in front of each framed handshake message.
pub const HANDSHAKE_HEADER_LENGTH: usize = 2;

/// Length prefix in front of each framed transport message.
pub const TRANSPORT_HEADER_LENGTH: usize = 4;

/// Largest plaintext the cipher accepts in one call.
pub const MAX_CHUNK_PLAINTEXT_LENGTH: usize = NOISE_MAX_MESSAGE_LENGTH - TAG_LENGTH;

/// Pre-shared key length the pattern demands.
pub const PSK_LENGTH: usize = 32;

/// Private key length of the pattern's Diffie-Hellman curve.
pub const DH_PRIVATE_KEY_LENGTH: usize = 32;

/// Messages in the handshake pattern.
pub const HANDSHAKE_MESSAGE_COUNT: u8 = 3;

/// Everything that can go wrong in the handshake or the transport codec.
#[derive(Debug)]
pub enum NoiseError {
    /// A transport-level failure, fatal to the connection.
    IoError(String),
    /// A handshake message length outside the allowed bounds.
    SizeViolation(usize),
    /// Cryptographic verification failed or a message was out of sequence.
    HandshakeProtocolError,
    /// Transition to transport mode was attempted before the handshake finished.
    HandshakeIncompleteError,
    /// A transport-phase chunk failed authentication.
    DecryptionError,
}

/// The description `message` returns for each error.
pub open spec fn spec_message(e: NoiseError) -> Seq<char> {
    match e {
        NoiseError::IoError(m) => m@,
        NoiseError::SizeViolation(_) => "handshake message length out of bounds"@,
        NoiseError::HandshakeProtocolError => "handshake protocol error"@,
        NoiseError::HandshakeIncompleteError => "handshake is not complete"@,
        NoiseError::DecryptionError => "transport message failed decryption"@,
    }
}

impl NoiseError {
    /// A short description of the error.
    pub fn message(&self) -> (r: String)
        ensures
            r@ == spec_message(*self),
    {
        match self {
            NoiseError::IoError(m) => m.clone(),
            NoiseError::SizeViolation(_) => "handshake message length out of bounds".to_owned(),
            NoiseError::HandshakeProtocolError => "handshake protocol error".to_owned(),
            NoiseError::HandshakeIncompleteError => "handshake is not complete".to_owned(),
            NoiseError::DecryptionError => "transport message failed decryption".to_owned(),
        }
    }
}

#[verifier::external_type_specification]
#[verifier::external_body]
pub struct ExHandshakeState(snow::HandshakeState);

#[verifier::external_type_specification]
#[verifier::external_body]
pub struct ExTransportState(snow::TransportState);

/// How many messages of its pattern a handshake state has yet to produce or
/// consume: in snow's terms, `message_patterns.len() - pattern_position`. A
/// name only; the trusted items below say where it starts and how each call
/// moves it, and nothing else is assumed of it.
pub uninterp spec fn hs_remaining(s: snow::HandshakeState) -> int;

/// Relies on snow::Builder::new and snow::Builder::generate_keypair: draws a
/// fresh private key for the given set of Noise parameters. Every curve the
/// default resolver offers uses 32-byte private keys, and the keypair is
/// sized by the curve's `priv_len`. Nothing is promised of the key's value:
/// it is random.
#[verifier::external_body]
fn generate_private_key(pattern: &str) -> (r: Result<Vec<u8>, NoiseError>)
    ensures
        r matches Ok(k) ==> k@.len() == DH_PRIVATE_KEY_LENGTH,
        r matches Err(e) ==> e is HandshakeProtocolError,
{
    let params: snow::params::NoiseParams = match pattern.parse() {
        Ok(p) => p,
        Err(_) => return Err(NoiseError::HandshakeProtocolError),
    };
    snow::Builder::new(params)
        .generate_keypair()
        .map(|k| k.private)
        .map_err(|_| NoiseError::HandshakeProtocolError)
}

/// Relies on snow::Builder (new, local_private_key, psk, build_initiator):
/// builds the initiator's side of the handshake from the pattern, the local
/// private key and the pre-shared key. The key must have the curve's length:
/// snow copies it into a fixed 32-byte array without its own check. The
/// pattern is pinned to the one this library speaks, whose "XX" body is
/// three messages (a psk modifier inserts a token into an existing message,
/// never a new message), and a fresh state starts at the first of them.
#[verifier::external_body]
fn build_initiator_session(
    pattern: &str,
    psk_index: u8,
    psk: &[u8],
    key: &[u8],
) -> (r: Result<snow::HandshakeState, NoiseError>)
    requires
        psk@.len() == PSK_LENGTH,
        key@.len() == DH_PRIVATE_KEY_LENGTH,
        pattern@ == "Noise_XXpsk3_25519_ChaChaPoly_BLAKE2s"@,
    ensures
        r matches Ok(s) ==> hs_remaining(s) == HANDSHAKE_MESSAGE_COUNT as int,
        r matches Err(e) ==> e is HandshakeProtocolError,
{
    let params: snow::params::NoiseParams = match pattern.parse() {
        Ok(p) => p,
        Err(_) => return Err(NoiseError::HandshakeProtocolError),
    };
    let psk_key: &[u8; 32] = match psk.try_into() {
        Ok(k) => k,
        Err(_) => return Err(NoiseError::HandshakeProtocolError),
    };
    snow::Builder::new(params)
        .local_private_key(key)
        .and_then(|b| b.psk(psk_index, psk_key))
        .and_then(|b| b.build_initiator())
        .map_err(|_| NoiseError::HandshakeProtocolError)
}

/// Relies on snow::Builder (new, local_private_key, psk, build_responder):
/// builds the responder's side of the handshake, under the same reading of
/// snow as the initiator's builder above.
#[verifier::external_body]
fn build_responder_session(
    pattern: &str,
    psk_index: u8,
    psk: &[u8],
    key: &[u8],
) -> (r: Result<snow::HandshakeState, NoiseError>)
    requires
        psk@.len() == PSK_LENGTH,
        key@.len() == DH_PRIVATE_KEY_LENGTH,
        pattern@ == "Noise_XXpsk3_25519_ChaChaPoly_BLAKE2s"@,
    ensures
        r matches Ok(s) ==> hs_remaining(s) == HANDSHAKE_MESSAGE_COUNT as int,
        r matches Err(e) ==> e is HandshakeProtocolError,
{
    let params: snow::params::NoiseParams = match pattern.parse() {
        Ok(p) => p,
        Err(_) => return Err(NoiseError::HandshakeProtocolError),
    };
    let psk_key: &[u8; 32] = match psk.try_into() {
        Ok(k) => k,
        Err(_) => return Err(NoiseError::HandshakeProtocolError),
    };
    snow::Builder::new(params)
        .local_private_key(key)
        .and_then(|b| b.psk(psk_index, psk_key))
        .and_then(|b| b.build_responder())
        .map_err(|_| NoiseError::HandshakeProtocolError)
}

/// Relies on snow::HandshakeState::write_message: writes the next handshake
/// message into a buffer of the given size and reports how many bytes it
/// produced; they never exceed the buffer. The buffer must hold the largest
/// Noise message: snow's bounds checks miss the authentication tag behind an
/// encrypted static key, so a shorter buffer can panic. On success exactly
/// one pattern message is consumed; on failure the position is untouched
/// (the increment happens only on the success path).
#[verifier::external_body]
fn hs_write_message(state: &mut snow::HandshakeState, buf_len: usize) -> (r: Result<
    Vec<u8>,
    NoiseError,
>)
    requires
        buf_len >= NOISE_MAX_MESSAGE_LENGTH,
    ensures
        r matches Ok(m) ==> m@.len() <= buf_len,
        r.is_ok() ==> hs_remaining(*final(state)) == hs_remaining(*old(state)) - 1,
        r.is_err() ==> hs_remaining(*final(state)) == hs_remaining(*old(state)),
        r matches Err(e) ==> e is HandshakeProtocolError,
{
    let mut buf = vec![0u8; buf_len];
    match state.write_message(&[], &mut buf) {
        Ok(n) => {
            buf.truncate(n);
            Ok(buf)
        },
        Err(_) => Err(NoiseError::HandshakeProtocolError),
    }
}

/// Relies on snow::HandshakeState::read_message: consumes and verifies one
/// inbound handshake message; the payload it yields never exceeds the
/// buffer, and every undersized input or output returns an error rather
/// than panicking. On success exactly one pattern message is consumed; on
/// failure the position is untouched.
#[verifier::external_body]
fn hs_read_message(state: &mut snow::HandshakeState, msg: &[u8], buf_len: usize) -> (r: Result<
    Vec<u8>,
    NoiseError,
>)
    ensures
        r matches Ok(m) ==> m@.len() <= buf_len,
        r.is_ok() ==> hs_remaining(*final(state)) == hs_remaining(*old(state)) - 1,
        r.is_err() ==> hs_remaining(*final(state)) == hs_remaining(*old(state)),
        r matches Err(e) ==> e is HandshakeProtocolError,
{
    let mut buf = vec![0u8; buf_len];
    match state.read_message(msg, &mut buf) {
        Ok(n) => {
            buf.truncate(n);
            Ok(buf)
        },
        Err(_) => Err(NoiseError::HandshakeProtocolError),
    }
}

/// Relies on snow::HandshakeState::into_transport_mode: the one-way
/// transition into the transport phase. An unfinished handshake (one with
/// pattern messages remaining) is its one and only failure.
#[verifier::external_body]
fn hs_into_transport(state: snow::HandshakeState) -> (r: Result<
    snow::TransportState,
    NoiseError,
>)
    ensures
        r.is_ok() <==> hs_remaining(state) == 0,
        r matches Err(e) ==> e is HandshakeIncompleteError,
{
    state.into_transport_mode().map_err(|_| NoiseError::HandshakeIncompleteError)
}

/// Relies on snow::TransportState::write_message: encrypts one chunk with the
/// send direction's key and counter; on success the ciphertext is the chunk
/// plus the 16-byte authentication tag.
#[verifier::external_body]
fn ts_encrypt(state: &mut snow::TransportState, chunk: &[u8], out_len: usize) -> (r: Result<
    Vec<u8>,
    NoiseError,
>)
    ensures
        r matches Ok(c) ==> c@.len() == chunk@.len() + TAG_LENGTH,
        r matches Err(e) ==> e is IoError,
{
    let mut buf = vec![0u8; out_len];
    match state.write_message(chunk, &mut buf) {
        Ok(n) => {
            buf.truncate(n);
            Ok(buf)
        },
        Err(e) => Err(NoiseError::IoError(format!("{:?}", e))),
    }
}

/// Relies on snow::TransportState::read_message: authenticates and decrypts
/// one chunk with the receive direction; on success the plaintext is the
/// chunk minus the 16-byte tag, and a chunk shorter than the tag never
/// succeeds.
#[verifier::external_body]
fn ts_decrypt(state: &mut snow::TransportState, chunk: &[u8], out_len: usize) -> (r: Result<
    Vec<u8>,
    NoiseError,
>)
    ensures
        r matches Ok(m) ==> chunk@.len() >= TAG_LENGTH && m@.len() == chunk@.len() - TAG_LENGTH,
        r matches Err(e) ==> e == NoiseError::DecryptionError,
{
    let mut buf = vec![0u8; out_len];
    match state.read_message(chunk, &mut buf) {
        Ok(n) => {
            buf.truncate(n);
            Ok(buf)
        },
        Err(_) => Err(NoiseError::DecryptionError),
    }
}

/// Rejects a handshake message length outside the allowed bounds before the
/// bytes reach the cryptographic engine.
pub fn validate_handshake_length(len: usize) -> (r: Result<(), NoiseError>)
    ensures
        r.is_ok() <==> NOISE_MIN_HANDSHAKE_MESSAGE_LENGTH <= len <= NOISE_MAX_MESSAGE_LENGTH,
        r.is_err() ==> r == Err::<(), NoiseError>(NoiseError::SizeViolation(len)),
{
    if len < NOISE_MIN_HANDSHAKE_MESSAGE_LENGTH || len > NOISE_MAX_MESSAGE_LENGTH {
        Err(NoiseError::SizeViolation(len))
    } else {
        Ok(())
    }
}

/// The side of the handshake a session drives.
#[derive(Debug, PartialEq, Eq, Structural, Clone, Copy)]
pub enum Role {
    Initiator,
    Responder,
}

/// Configuration for one handshake attempt: the bound on application
/// messages and the pre-shared key mixed into the pattern.
#[derive(Debug)]
pub struct HandshakeParams {
    pub max_message_len: u32,
    pub secret: Vec<u8>,
}

/// Whether the given role sends the next handshake message once `step`
/// messages have gone by: the initiator sends the first and third, the
/// responder the second.
pub open spec fn is_write_turn(role: Role, step: int) -> bool {
    0 <= step < HANDSHAKE_MESSAGE_COUNT && ((role == Role::Initiator) <==> (step % 2 == 0))
}

/// Whether the given role receives the next handshake message.
pub open spec fn is_read_turn(role: Role, step: int) -> bool {
    0 <= step < HANDSHAKE_MESSAGE_COUNT && ((role == Role::Initiator) <==> (step % 2 == 1))
}

/// Law: before the handshake completes, exactly one side sends the next
/// message and the other receives it, at every step. Two sessions of
/// opposite roles therefore alternate strictly and never deadlock nor both
/// write.
pub proof fn lemma_turns_complementary(step: int)
    requires
        0 <= step < HANDSHAKE_MESSAGE_COUNT,
    ensures
        is_write_turn(Role::Initiator, step) <==> is_read_turn(Role::Responder, step),
        is_write_turn(Role::Responder, step) <==> is_read_turn(Role::Initiator, step),
        is_write_turn(Role::Initiator, step) <==> !is_write_turn(Role::Responder, step),
{
}

/// The post-handshake cryptographic state: two independent directional
/// counters and keys, fed one chunk at a time.
pub struct TransportSession {
    state: snow::TransportState,
}

impl TransportSession {
    /// Encrypts one chunk with the send direction, advancing its counter.
    pub fn encrypt_chunk(&mut self, chunk: &[u8]) -> (r: Result<Vec<u8>, NoiseError>)
        requires
            chunk@.len() <= MAX_CHUNK_PLAINTEXT_LENGTH,
        ensures
            r matches Ok(c) ==> c@.len() == chunk@.len() + TAG_LENGTH,
            r matches Err(e) ==> e is IoError,
    {
        ts_encrypt(&mut self.state, chunk, chunk.len() + TAG_LENGTH)
    }

    /// Authenticates and decrypts one chunk with the receive direction,
    /// advancing its counter. A chunk shorter than the tag is rejected
    /// outright.
    pub fn decrypt_chunk(&mut self, chunk: &[u8]) -> (r: Result<Vec<u8>, NoiseError>)
        requires
            chunk@.len() <= NOISE_MAX_MESSAGE_LENGTH,
        ensures
            r matches Ok(m) ==> chunk@.len() >= TAG_LENGTH && m@.len() == chunk@.len()
                - TAG_LENGTH,
            r matches Err(e) ==> e == NoiseError::DecryptionError,
    {
        if chunk.len() < TAG_LENGTH {
            return Err(NoiseError::DecryptionError);
        }
        ts_decrypt(&mut self.state, chunk, chunk.len() - TAG_LENGTH)
    }
}

/// The Noise pattern every session is built with: a 3-message mutual
/// handshake with a pre-shared key mixed into the last message.
pub fn noise_pattern() -> (r: &'static str)
    ensures
        r@ == "Noise_XXpsk3_25519_ChaChaPoly_BLAKE2s"@,
{
    "Noise_XXpsk3_25519_ChaChaPoly_BLAKE2s"
}

/// Where the pre-shared key sits in the pattern.
pub const PSK_POSITION: u8 = 3;

/// One side of the cryptographic handshake. It produces and consumes
/// handshake messages in strict sequence and, once all three messages have
/// gone by, turns into a `TransportSession`; the turn is one-way, the
/// wrapper is consumed.
pub struct NoiseWrapper {
    session: snow::HandshakeState,
    role: Role,
    step: u8,
}

impl NoiseWrapper {
    /// The side this session drives.
    pub closed spec fn spec_role(&self) -> Role {
        self.role
    }

    /// How many handshake messages this session has produced or consumed.
    pub closed spec fn steps_completed(&self) -> int {
        self.step as int
    }

    /// The session's pattern position mirrors the step counter: together
    /// they always cover the whole pattern.
    pub closed spec fn session_in_sync(&self) -> bool {
        self.steps_completed() + hs_remaining(self.session) == HANDSHAKE_MESSAGE_COUNT as int
    }

    pub open spec fn wf(&self) -> bool {
        0 <= self.steps_completed() <= HANDSHAKE_MESSAGE_COUNT && self.session_in_sync()
    }

    /// Whether all handshake messages have gone by.
    pub open spec fn is_complete(&self) -> bool {
        self.steps_completed() == HANDSHAKE_MESSAGE_COUNT
    }

    /// Creates the initiator's side of the handshake with a fresh static key.
    pub fn initiator(params: &HandshakeParams) -> (r: Result<NoiseWrapper, NoiseError>)
        requires
            params.secret@.len() == PSK_LENGTH,
        ensures
            r matches Ok(w) ==> w.spec_role() == Role::Initiator && w.steps_completed() == 0
                && w.wf(),
            r matches Err(e) ==> e is HandshakeProtocolError,
    {
        let key = generate_private_key(noise_pattern())?;
        let session = build_initiator_session(
            noise_pattern(),
            PSK_POSITION,
            params.secret.as_slice(),
            key.as_slice(),
        )?;
        Ok(NoiseWrapper { session, role: Role::Initiator, step: 0 })
    }

    /// Creates the responder's side of the handshake with a fresh static key.
    pub fn responder(params: &HandshakeParams) -> (r: Result<NoiseWrapper, NoiseError>)
        requires
            params.secret@.len() == PSK_LENGTH,
        ensures
            r matches Ok(w) ==> w.spec_role() == Role::Responder && w.steps_completed() == 0
                && w.wf(),
            r matches Err(e) ==> e is HandshakeProtocolError,
    {
        let key = generate_private_key(noise_pattern())?;
        let session = build_responder_session(
            noise_pattern(),
            PSK_POSITION,
            params.secret.as_slice(),
            key.as_slice(),
        )?;
        Ok(NoiseWrapper { session, role: Role::Responder, step: 0 })
    }

    /// The side this session drives.
    pub fn role(&self) -> (r: Role)
        ensures
            r == self.spec_role(),
    {
        self.role
    }

    /// How many handshake messages have gone by.
    pub fn current_step(&self) -> (r: u8)
        ensures
            r as int == self.steps_completed(),
    {
        self.step
    }

    /// Whether all handshake messages have gone by.
    pub fn is_handshake_finished(&self) -> (b: bool)
        ensures
            b == self.is_complete(),
    {
        self.step == HANDSHAKE_MESSAGE_COUNT
    }

    /// Produces the next outbound handshake message and its length. Out of
    /// sequence the call fails without touching the session's position.
    pub fn write_handshake_msg(&mut self) -> (r: Result<(usize, Vec<u8>), NoiseError>)
        requires
            old(self).wf(),
        ensures
            final(self).wf(),
            final(self).spec_role() == old(self).spec_role(),
            !is_write_turn(old(self).spec_role(), old(self).steps_completed()) ==> r == Err::<
                (usize, Vec<u8>),
                NoiseError,
            >(NoiseError::HandshakeProtocolError),
            r.is_err() ==> final(self).steps_completed() == old(self).steps_completed(),
            r matches Err(e) ==> e is HandshakeProtocolError,
            r matches Ok(p) ==> is_write_turn(old(self).spec_role(), old(self).steps_completed())
                && final(self).steps_completed() == old(self).steps_completed() + 1 && p.0
                == p.1@.len() && p.1@.len() <= NOISE_MAX_MESSAGE_LENGTH,
    {
        let turn = match self.role {
            Role::Initiator => self.step % 2 == 0,
            Role::Responder => self.step % 2 == 1,
        };
        if self.step >= HANDSHAKE_MESSAGE_COUNT || !turn {
            return Err(NoiseError::HandshakeProtocolError);
        }
        let msg = hs_write_message(&mut self.session, NOISE_MAX_MESSAGE_LENGTH)?;
        self.step = self.step + 1;
        Ok((msg.len(), msg))
    }

    /// Consumes and verifies one inbound handshake message, yielding its
    /// decrypted payload and the payload's length. The length bounds are
    /// checked before the bytes reach the cryptographic engine; out of
    /// sequence or unverifiable input fails without advancing the session.
    pub fn read_handshake_msg(&mut self, input: &Vec<u8>) -> (r: Result<
        (usize, Vec<u8>),
        NoiseError,
    >)
        requires
            old(self).wf(),
        ensures
            final(self).wf(),
            final(self).spec_role() == old(self).spec_role(),
            r.is_err() ==> final(self).steps_completed() == old(self).steps_completed(),
            r matches Err(e) ==> e is SizeViolation || e is HandshakeProtocolError,
            r matches Err(e) && e is SizeViolation ==> !(NOISE_MIN_HANDSHAKE_MESSAGE_LENGTH
                <= input@.len() <= NOISE_MAX_MESSAGE_LENGTH),
            !(NOISE_MIN_HANDSHAKE_MESSAGE_LENGTH <= input@.len() <= NOISE_MAX_MESSAGE_LENGTH)
                ==> r == Err::<(usize, Vec<u8>), NoiseError>(
                NoiseError::SizeViolation(input@.len() as usize),
            ),
            NOISE_MIN_HANDSHAKE_MESSAGE_LENGTH <= input@.len() <= NOISE_MAX_MESSAGE_LENGTH
                && !is_read_turn(old(self).spec_role(), old(self).steps_completed()) ==> r == Err::<
                (usize, Vec<u8>),
                NoiseError,
            >(NoiseError::HandshakeProtocolError),
            r matches Ok(p) ==> NOISE_MIN_HANDSHAKE_MESSAGE_LENGTH <= input@.len()
                <= NOISE_MAX_MESSAGE_LENGTH && is_read_turn(
                old(self).spec_role(),
                old(self).steps_completed(),
            ) && final(self).steps_completed() == old(self).steps_completed() + 1 && p.0
                == p.1@.len(),
    {
        validate_handshake_length(input.len())?;
        let turn = match self.role {
            Role::Initiator => self.step % 2 == 1,
            Role::Responder => self.step % 2 == 0,
        };
        if self.step >= HANDSHAKE_MESSAGE_COUNT || !turn {
            return Err(NoiseError::HandshakeProtocolError);
        }
        let buf = hs_read_message(&mut self.session, input.as_slice(), NOISE_MAX_MESSAGE_LENGTH)?;
        self.step = self.step + 1;
        Ok((buf.len(), buf))
    }

    /// The one-way transition into the transport phase. It consumes the
    /// session, so no handshake message can be produced or consumed after
    /// it; before the handshake is complete it fails instead.
    pub fn into_transport_mode(self) -> (r: Result<TransportSession, NoiseError>)
        requires
            self.wf(),
        ensures
            !self.is_complete() ==> r == Err::<TransportSession, NoiseError>(
                NoiseError::HandshakeIncompleteError,
            ),
            r matches Err(e) ==> e is HandshakeIncompleteError,
            r.is_ok() <==> self.is_complete(),
    {
        if self.step < HANDSHAKE_MESSAGE_COUNT {
            return Err(NoiseError::HandshakeIncompleteError);
        }
        let state = hs_into_transport(self.session)?;
        Ok(TransportSession { state })
    }
}

} // verus!
