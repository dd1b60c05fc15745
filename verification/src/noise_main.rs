//! The handshake orchestrator: composes wire framing, the validation layer
//! and the handshake session wrapper into the two canonical flows, one per
//! role. The surrounding connection code performs the socket reads and
//! writes that each action asks for; every decision lives here.

use vstd::prelude::*;
use vstd::string::StringExecFns;
use std::io::Write;
use crate::framing::{frame_handshake_message, lemma_u16_le_round_trip, u16_from_le_bytes,
    u16_le_bytes};
use crate::noise_codec::NoiseCodec;
use crate::wrapper::{
    is_read_turn, is_write_turn, HandshakeParams, NoiseError, NoiseWrapper, Role,
    HANDSHAKE_HEADER_LENGTH, HANDSHAKE_MESSAGE_COUNT, NOISE_MAX_MESSAGE_LENGTH,
    NOISE_MIN_HANDSHAKE_MESSAGE_LENGTH, PSK_LENGTH,
};

verus! {

/// What the connection code must do next to drive the handshake forward.
#[derive(Debug, PartialEq, Eq, Structural, Clone, Copy)]
pub enum HandshakeAction {
    /// Produce the next frame with `write_framed_message` and send it.
    SendMessage,
    /// Read one frame from the peer and hand its payload to
    /// `read_framed_payload`.
    AwaitMessage,
    /// The handshake is complete: call `finalize`.
    TransportMode,
}

/// One side of the 3-message handshake, driven frame by frame over any byte
/// stream. On success it yields the connection's transport codec.
pub struct NoiseHandshake {
    noise: NoiseWrapper,
    max_message_len: u32,
}

impl NoiseHandshake {
    /// The side this handshake drives.
    pub closed spec fn spec_role(&self) -> Role {
        self.noise.spec_role()
    }

    /// How many handshake messages have gone by.
    pub closed spec fn steps_completed(&self) -> int {
        self.noise.steps_completed()
    }

    /// The application-message bound carried into the transport codec.
    pub closed spec fn spec_max_message_len(&self) -> u32 {
        self.max_message_len
    }

    /// The handshake session is well-formed and in step with its counter.
    pub closed spec fn wf(&self) -> bool {
        self.noise.wf()
    }

    /// Whether all handshake messages have gone by.
    pub open spec fn is_complete(&self) -> bool {
        self.steps_completed() == HANDSHAKE_MESSAGE_COUNT
    }

    /// Starts the responder's side of the handshake for an accepted
    /// connection.
    pub fn listen(params: &HandshakeParams) -> (r: Result<NoiseHandshake, NoiseError>)
        requires
            params.secret@.len() == PSK_LENGTH,
        ensures
            r matches Ok(h) ==> h.spec_role() == Role::Responder && h.steps_completed() == 0
                && h.spec_max_message_len() == params.max_message_len,
            r matches Err(e) ==> e is HandshakeProtocolError,
    {
        let noise = NoiseWrapper::responder(params)?;
        Ok(NoiseHandshake { noise, max_message_len: params.max_message_len })
    }

    /// Starts the initiator's side of the handshake for an outbound
    /// connection.
    pub fn send(params: &HandshakeParams) -> (r: Result<NoiseHandshake, NoiseError>)
        requires
            params.secret@.len() == PSK_LENGTH,
        ensures
            r matches Ok(h) ==> h.spec_role() == Role::Initiator && h.steps_completed() == 0
                && h.spec_max_message_len() == params.max_message_len,
            r matches Err(e) ==> e is HandshakeProtocolError,
    {
        let noise = NoiseWrapper::initiator(params)?;
        Ok(NoiseHandshake { noise, max_message_len: params.max_message_len })
    }

    /// What the connection code must do next. Exactly one action applies at
    /// every point of the handshake.
    pub fn next_action(&self) -> (a: HandshakeAction)
        requires
            self.wf(),
        ensures
            a == HandshakeAction::SendMessage <==> is_write_turn(
                self.spec_role(),
                self.steps_completed(),
            ),
            a == HandshakeAction::AwaitMessage <==> is_read_turn(
                self.spec_role(),
                self.steps_completed(),
            ),
            a == HandshakeAction::TransportMode <==> self.is_complete(),
    {
        if self.noise.is_handshake_finished() {
            return HandshakeAction::TransportMode;
        }
        let even = self.noise.current_step() % 2 == 0;
        let write = match self.noise.role() {
            Role::Initiator => even,
            Role::Responder => !even,
        };
        if write {
            HandshakeAction::SendMessage
        } else {
            HandshakeAction::AwaitMessage
        }
    }

    /// Produces the next outbound handshake message, already framed: the
    /// two-byte little-endian header always holds the length of the rest of
    /// the frame. Out of sequence the call fails without advancing.
    pub fn write_framed_message(&mut self) -> (r: Result<Vec<u8>, NoiseError>)
        requires
            old(self).wf(),
        ensures
            final(self).wf(),
            final(self).spec_role() == old(self).spec_role(),
            final(self).spec_max_message_len() == old(self).spec_max_message_len(),
            !is_write_turn(old(self).spec_role(), old(self).steps_completed()) ==> r == Err::<
                Vec<u8>,
                NoiseError,
            >(NoiseError::HandshakeProtocolError),
            r.is_err() ==> final(self).steps_completed() == old(self).steps_completed(),
            r matches Err(e) ==> e is HandshakeProtocolError,
            r matches Ok(f) ==> is_write_turn(old(self).spec_role(), old(self).steps_completed())
                && final(self).steps_completed() == old(self).steps_completed() + 1
                && HANDSHAKE_HEADER_LENGTH <= f@.len() <= HANDSHAKE_HEADER_LENGTH
                + NOISE_MAX_MESSAGE_LENGTH && u16_from_le_bytes(
                f@.subrange(0, HANDSHAKE_HEADER_LENGTH as int),
            ) == f@.len() - HANDSHAKE_HEADER_LENGTH,
    {
        let (_len, msg) = self.noise.write_handshake_msg()?;
        let frame = frame_handshake_message(&msg)?;
        proof {
            assert(frame@.subrange(0, HANDSHAKE_HEADER_LENGTH as int) =~= u16_le_bytes(
                msg@.len() as u16,
            ));
            lemma_u16_le_round_trip(msg@.len() as u16);
        }
        Ok(frame)
    }

    /// Consumes the payload of one inbound handshake frame. The length
    /// bounds are checked before the bytes reach the cryptographic engine;
    /// out of bounds, out of sequence or unverifiable input fails without
    /// advancing.
    pub fn read_framed_payload(&mut self, payload: &Vec<u8>) -> (r: Result<(), NoiseError>)
        requires
            old(self).wf(),
        ensures
            final(self).wf(),
            final(self).spec_role() == old(self).spec_role(),
            final(self).spec_max_message_len() == old(self).spec_max_message_len(),
            r.is_err() ==> final(self).steps_completed() == old(self).steps_completed(),
            r matches Err(e) ==> e is SizeViolation || e is HandshakeProtocolError,
            r matches Err(e) && e is SizeViolation ==> !(NOISE_MIN_HANDSHAKE_MESSAGE_LENGTH
                <= payload@.len() <= NOISE_MAX_MESSAGE_LENGTH),
            !(NOISE_MIN_HANDSHAKE_MESSAGE_LENGTH <= payload@.len() <= NOISE_MAX_MESSAGE_LENGTH)
                ==> r == Err::<(), NoiseError>(NoiseError::SizeViolation(payload@.len() as usize)),
            NOISE_MIN_HANDSHAKE_MESSAGE_LENGTH <= payload@.len() <= NOISE_MAX_MESSAGE_LENGTH
                && !is_read_turn(old(self).spec_role(), old(self).steps_completed()) ==> r == Err::<
                (),
                NoiseError,
            >(NoiseError::HandshakeProtocolError),
            r.is_ok() ==> NOISE_MIN_HANDSHAKE_MESSAGE_LENGTH <= payload@.len()
                <= NOISE_MAX_MESSAGE_LENGTH && is_read_turn(
                old(self).spec_role(),
                old(self).steps_completed(),
            ) && final(self).steps_completed() == old(self).steps_completed() + 1,
    {
        self.noise.read_handshake_msg(payload)?;
        Ok(())
    }

    /// The one-way transition into the transport phase: consumes the
    /// handshake and yields the connection's codec. Before the handshake is
    /// complete it fails instead.
    pub fn finalize(self) -> (r: Result<NoiseCodec, NoiseError>)
        requires
            self.wf(),
        ensures
            !self.is_complete() ==> r == Err::<NoiseCodec, NoiseError>(
                NoiseError::HandshakeIncompleteError,
            ),
            r matches Err(e) ==> e is HandshakeIncompleteError,
            r.is_ok() <==> self.is_complete(),
            r matches Ok(c) ==> c.spec_max_message_len() == self.spec_max_message_len(),
    {
        let max_message_len = self.max_message_len;
        let session = self.noise.into_transport_mode()?;
        Ok(NoiseCodec::new(session, max_message_len))
    }
}

/// Law: the two canonical flows. The initiator sends the first and third
/// messages and receives the second; the responder mirrors it: receive,
/// send, receive. After the third message both sides are complete.
pub proof fn lemma_canonical_flows()
    ensures
        is_write_turn(Role::Initiator, 0) && is_read_turn(Role::Responder, 0),
        is_write_turn(Role::Responder, 1) && is_read_turn(Role::Initiator, 1),
        is_write_turn(Role::Initiator, 2) && is_read_turn(Role::Responder, 2),
        !is_write_turn(Role::Initiator, 3) && !is_read_turn(Role::Initiator, 3),
        !is_write_turn(Role::Responder, 3) && !is_read_turn(Role::Responder, 3),
{
}

/// A deliberately malformed handshake message for fault-injection: at the
/// chosen step a zero-filled message of the chosen size replaces the real
/// one.
#[derive(Debug, PartialEq, Eq, Structural, Clone, Copy)]
pub enum HandshakeStep {
    Normal,
    One(u8, usize),
    Two(u8, usize),
}

/// The size injected at `current_step`, if the fault targets it.
pub open spec fn injected_size(step: HandshakeStep, current_step: u8) -> Option<usize> {
    match step {
        HandshakeStep::Normal => None::<usize>,
        HandshakeStep::One(cs, size) => if cs == current_step {
            Some(size)
        } else {
            None
        },
        HandshakeStep::Two(cs, size) => if cs == current_step {
            Some(size)
        } else {
            None
        },
    }
}

/// A zero-filled buffer of the given length.
fn zero_vec(n: usize) -> (r: Vec<u8>)
    ensures
        r@ == Seq::new(n as nat, |i: int| 0u8),
{
    let mut r: Vec<u8> = Vec::new();
    let mut i: usize = 0;
    while i < n
        invariant
            i <= n,
            r@ == Seq::new(i as nat, |j: int| 0u8),
        decreases n - i,
    {
        r.push(0u8);
        i = i + 1;
        proof {
            assert(r@ =~= Seq::new(i as nat, |j: int| 0u8));
        }
    }
    r
}

/// Produces the next handshake message, except at the step a fault targets,
/// where a zero-filled message of the fault's size goes out instead and the
/// session is left untouched.
pub fn write_bad_handshake_msg(
    noise: &mut NoiseWrapper,
    current_step: u8,
    step: &HandshakeStep,
) -> (r: Result<(usize, Vec<u8>), NoiseError>)
    requires
        old(noise).wf(),
    ensures
        final(noise).wf(),
        final(noise).spec_role() == old(noise).spec_role(),
        injected_size(*step, current_step) matches Some(size) ==> *final(noise) == *old(noise)
            && (r matches Ok(p) && p.0 == size && p.1@ == Seq::new(size as nat, |i: int| 0u8)),
        injected_size(*step, current_step) is None ==> {
            &&& !is_write_turn(old(noise).spec_role(), old(noise).steps_completed()) ==> r
                == Err::<(usize, Vec<u8>), NoiseError>(NoiseError::HandshakeProtocolError)
            &&& r.is_err() ==> final(noise).steps_completed() == old(noise).steps_completed()
            &&& r matches Ok(p) ==> is_write_turn(
                old(noise).spec_role(),
                old(noise).steps_completed(),
            ) && final(noise).steps_completed() == old(noise).steps_completed() + 1 && p.0
                == p.1@.len() && p.1@.len() <= NOISE_MAX_MESSAGE_LENGTH
        },
{
    match step {
        HandshakeStep::Normal => noise.write_handshake_msg(),
        HandshakeStep::One(cs, size) => {
            if *cs == current_step {
                Ok((*size, zero_vec(*size)))
            } else {
                noise.write_handshake_msg()
            }
        },
        HandshakeStep::Two(cs, size) => {
            if *cs == current_step {
                Ok((*size, zero_vec(*size)))
            } else {
                noise.write_handshake_msg()
            }
        },
    }
}

/// Relies on std::io::stderr and the writeln macro: prints the error for the
/// operator. Nothing is promised of it.
#[verifier::external_body]
pub fn log_error(err: &NoiseError) {
    let _ = writeln!(std::io::stderr(), "An error occurred: {:?}", err);
}

/// Builds the transport-level error that carries an arbitrary message.
pub fn other_error(s: &str) -> (r: NoiseError)
    ensures
        r matches NoiseError::IoError(m) && m@ == s@,
{
    NoiseError::IoError(s.to_owned())
}

/// The description `into_other` produces: a fixed operator-facing prefix,
/// then the source error's own description.
pub open spec fn other_message(e: NoiseError) -> Seq<char> {
    "An error occurred, "@ + crate::wrapper::spec_message(e)
}

/// Normalizes any error of this crate into its transport-level form: the
/// result carries the source error's description behind a fixed prefix.
pub fn into_other(err: &NoiseError) -> (r: NoiseError)
    ensures
        r matches NoiseError::IoError(m) && m@ == other_message(*err),
{
    let mut m = "An error occurred, ".to_owned();
    let description = err.message();
    m.append(description.as_str());
    NoiseError::IoError(m)
}

} // verus!
