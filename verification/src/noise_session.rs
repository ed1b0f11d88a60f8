//! Encrypted sessions: a Noise_XX handshake and the transport that follows it.
//!
//! The handshake pattern needs no key of the peer ahead of time: each side
//! learns the other's static key in the handshake, and the connection manager
//! compares the identifier that belongs to it with the expected one.
use vstd::prelude::*;

use crate::bytes;
use crate::crypto::x25519_public_of;
use crate::error::{CoreError, ErrorView, Result};
use crate::identity::DeviceIdentity;

verus! {

#[verifier::external_type_specification]
#[verifier::external_body]
pub struct ExHandshakeState(snow::HandshakeState);

#[verifier::external_type_specification]
#[verifier::external_body]
pub struct ExTransportState(snow::TransportState);

#[verifier::external_type_specification]
#[verifier::external_body]
pub struct ExSnowError(snow::Error);

/// What a handshake state holds: the side, the pattern, how many of the
/// pattern's messages have passed and which, the local secrets, the peer's
/// static key once it is known, and the two keys of the transport to come (the
/// first encrypts what the initiator sends). A state is clean while no attempt
/// at a message has been given up half way: such an attempt leaves the cipher
/// at a key of its own.
pub struct HandshakeModel {
    pub initiator: bool,
    pub xx: bool,
    pub position: int,
    pub transcript: Seq<Seq<u8>>,
    pub clean: bool,
    pub local_secret: Seq<u8>,
    pub ephemeral: Seq<u8>,
    pub remote_static: Option<Seq<u8>>,
    pub initiator_key: Seq<u8>,
    pub responder_key: Seq<u8>,
}

/// What a handshake message after the first tells its reader: the writer's
/// static key, the payload and, in the last message, the keys of the transport.
pub struct HandshakeContent {
    pub static_key: Seq<u8>,
    pub payload: Seq<u8>,
    pub initiator_key: Seq<u8>,
    pub responder_key: Seq<u8>,
}

impl HandshakeModel {
    /// The initiator writes the first and the third message.
    pub open spec fn my_turn(self) -> bool {
        self.initiator == (self.position % 2 == 0)
    }

    /// A state of the pattern XX, which has three messages.
    pub open spec fn valid(self) -> bool {
        &&& self.xx
        &&& 0 <= self.position <= 3
        &&& self.transcript.len() == self.position
        &&& self.local_secret.len() == 32
        &&& self.ephemeral.len() == 32
    }

    /// Why a message with this payload cannot be written, if so.
    pub open spec fn write_fault(self, payload: nat, room: nat) -> Option<Seq<char>> {
        if !self.my_turn() {
            Some("state error: NotTurnToWrite"@)
        } else if self.position >= 3 {
            Some("state error: HandshakeAlreadyFinished"@)
        } else if room_needed(self.position) + payload > room {
            Some("input error"@)
        } else {
            None
        }
    }

    /// Why a message of this length cannot be read whatever it holds, if so.
    pub open spec fn read_fault(self, message: nat, room: nat) -> Option<Seq<char>> {
        if message > 65535 {
            Some("input error"@)
        } else if self.my_turn() {
            Some("state error: NotTurnToRead"@)
        } else if self.position >= 3 {
            Some("state error: HandshakeAlreadyFinished"@)
        } else if message < key_part(self.position) {
            Some("input error"@)
        } else if message < overhead(self.position) || message - overhead(self.position) > room {
            Some("decrypt error"@)
        } else {
            None
        }
    }

    /// The state after one more message.
    pub open spec fn advanced(self, after: HandshakeModel, message: Seq<u8>) -> bool {
        &&& after.initiator == self.initiator
        &&& after.xx == self.xx
        &&& after.position == self.position + 1
        &&& after.transcript == self.transcript.push(message)
        &&& after.clean == self.clean
        &&& after.local_secret == self.local_secret
        &&& after.ephemeral.len() == 32
    }

    /// The state after an attempt at a message that was given up. Nothing has
    /// passed; the ephemeral secret, what is known of the peer's key, and
    /// whether the state is still clean are left open.
    pub open spec fn stayed(self, after: HandshakeModel) -> bool {
        &&& after.initiator == self.initiator
        &&& after.xx == self.xx
        &&& after.position == self.position
        &&& after.transcript == self.transcript
        &&& after.local_secret == self.local_secret
        &&& after.ephemeral.len() == 32
    }

    /// Whether the reader of the next message that this side writes can be one
    /// with these secrets: its ephemeral public key is the one it sent, and its
    /// static public key the one that this side was told.
    pub open spec fn meets(self, ephemeral: Seq<u8>, secret: Seq<u8>) -> bool {
        &&& ephemeral.len() == 32
        &&& secret.len() == 32
        &&& x25519_public_of(ephemeral) == self.transcript[self.position - 1].take(32)
        &&& self.position == 2 ==> self.remote_static == Some(x25519_public_of(secret))
    }

    /// `after` is the state after writing `message` with `payload` in it. The
    /// payload of the first message stands in it unencrypted. The first two
    /// messages begin with an ephemeral public key. A clean state writes what
    /// its reader can open; the reader of the last message then has the same
    /// keys.
    pub open spec fn wrote(
        self,
        after: HandshakeModel,
        payload: Seq<u8>,
        message: Seq<u8>,
    ) -> bool {
        &&& self.advanced(after, message)
        &&& after.remote_static == self.remote_static
        &&& message.len() == payload.len() + overhead(self.position)
        &&& self.position == 0 ==> message.skip(32) == payload
        &&& self.position < 2 ==> message.take(32) == x25519_public_of(after.ephemeral)
        &&& self.position == 2 ==> after.ephemeral == self.ephemeral
        &&& self.position > 0 && self.clean ==> forall|e: Seq<u8>, s: Seq<u8>|
            self.meets(e, s) ==> {
                &&& #[trigger] handshake_opened(e, s, after.transcript) matches Some(c)
                &&& c.static_key == x25519_public_of(self.local_secret)
                &&& c.payload == payload
                &&& self.position == 2 ==> c.initiator_key == after.initiator_key
                    && c.responder_key == after.responder_key
            }
    }

    /// What this side finds in the next message of the peer, where it is not
    /// the first.
    pub open spec fn opening(self, message: Seq<u8>) -> Option<HandshakeContent> {
        handshake_opened(self.ephemeral, self.local_secret, self.transcript.push(message))
    }

    /// `after` is the state after reading `message` and finding `payload` in
    /// it. A message after the first has told the peer's static key, and the
    /// last one the keys of the transport.
    pub open spec fn read(
        self,
        after: HandshakeModel,
        message: Seq<u8>,
        payload: Seq<u8>,
    ) -> bool {
        &&& self.advanced(after, message)
        &&& after.ephemeral == self.ephemeral
        &&& payload.len() == message.len() - overhead(self.position)
        &&& self.position == 0 ==> payload == message.skip(32) && after.remote_static
            == self.remote_static
        &&& self.position > 0 ==> after.remote_static is Some && after.remote_static->Some_0.len()
            == 32
        &&& self.position > 0 && self.clean ==> {
            &&& self.opening(message) matches Some(c)
            &&& after.remote_static == Some(c.static_key)
            &&& payload == c.payload
            &&& self.position == 2 ==> after.initiator_key == c.initiator_key
                && after.responder_key == c.responder_key
        }
    }
}

/// The bytes of keys in each message of the pattern: an ephemeral key takes
/// 32, an encrypted static key 48.
pub open spec fn key_part(position: int) -> int {
    if position == 0 {
        32
    } else if position == 1 {
        80
    } else {
        48
    }
}

/// How much longer a message is than its payload. The first message is not
/// encrypted; the others carry a tag of 16 bytes.
pub open spec fn overhead(position: int) -> int {
    if position == 0 {
        32
    } else {
        key_part(position) + 16
    }
}

/// The room that writing a message takes beyond its payload.
pub open spec fn room_needed(position: int) -> int {
    key_part(position) + 16
}

/// What a transport state holds: a key and a message counter for each
/// direction, the peer's static key, and whether the pattern allows each
/// direction at all.
pub struct TransportModel {
    pub send_key: Seq<u8>,
    pub sent: int,
    pub receive_key: Seq<u8>,
    pub received: int,
    pub remote_static: Option<Seq<u8>>,
    pub may_send: bool,
    pub may_receive: bool,
}

impl TransportModel {
    /// Why a message with this payload cannot be sent, if so.
    pub open spec fn send_fault(self, payload: nat, room: nat) -> Option<Seq<char>> {
        if !self.may_send {
            Some("state error: OneWay"@)
        } else if payload + 16 > 65535 || payload + 16 > room {
            Some("input error"@)
        } else if self.sent == u64::MAX {
            Some("state error: Exhausted"@)
        } else {
            None
        }
    }

    /// Why a message cannot be received, if so.
    pub open spec fn receive_fault(self, message: Seq<u8>, room: nat) -> Option<Seq<char>> {
        if message.len() > 65535 {
            Some("input error"@)
        } else if !self.may_receive {
            Some("state error: OneWay"@)
        } else if message.len() < 16 || message.len() - 16 > room {
            Some("decrypt error"@)
        } else if self.received == u64::MAX {
            Some("state error: Exhausted"@)
        } else if noise_opened(self.receive_key, self.received, message) is None {
            Some("decrypt error"@)
        } else {
            None
        }
    }

    pub open spec fn after_send(self) -> TransportModel {
        TransportModel { sent: self.sent + 1, ..self }
    }

    pub open spec fn after_receive(self) -> TransportModel {
        TransportModel { received: self.received + 1, ..self }
    }

    /// What this side sends next, the other side can open next.
    pub open spec fn feeds(self, other: TransportModel) -> bool {
        &&& self.send_key == other.receive_key
        &&& self.sent == other.received
    }
}

/// What a handshake state holds.
pub uninterp spec fn handshake_model(hs: snow::HandshakeState) -> HandshakeModel;

/// What a side with these secrets finds in the last of these handshake
/// messages, having exchanged the others with its peer; nothing where it does
/// not decrypt.
pub uninterp spec fn handshake_opened(
    ephemeral: Seq<u8>,
    secret: Seq<u8>,
    transcript: Seq<Seq<u8>>,
) -> Option<HandshakeContent>;

/// What a transport state holds.
pub uninterp spec fn transport_model(ts: snow::TransportState) -> TransportModel;

/// The text that an error of the crate displays.
pub uninterp spec fn noise_error_text(e: snow::Error) -> Seq<char>;

/// The transport message made of a payload under a key and a counter.
pub uninterp spec fn noise_sealed(key: Seq<u8>, counter: int, payload: Seq<u8>) -> Seq<u8>;

/// The payload of a transport message, where its tag fits.
pub uninterp spec fn noise_opened(key: Seq<u8>, counter: int, message: Seq<u8>) -> Option<Seq<u8>>;

/// The name of the handshake: pattern, curve, cipher and hash.
pub open spec fn noise_params() -> Seq<char> {
    "Noise_XX_25519_ChaChaPoly_SHA256"@
}

/// The state of a handshake that has just begun.
pub open spec fn fresh_handshake(m: HandshakeModel, initiator: bool, secret: Seq<u8>) -> bool {
    &&& m.initiator == initiator
    &&& m.valid()
    &&& m.position == 0
    &&& m.clean
    &&& m.local_secret == secret
    &&& m.remote_static is None
}

/// `snow::Builder` with a local private key, `build_initiator`: with the
/// parameters of this library it succeeds with a handshake that has not begun.
#[verifier::external_body]
fn build_initiator(params: &str, secret: &[u8; 32]) -> (r: std::result::Result<
    snow::HandshakeState,
    snow::Error,
>)
    ensures
        params@ == noise_params() ==> r is Ok && fresh_handshake(
            handshake_model(r->Ok_0),
            true,
            secret@,
        ),
{
    snow::Builder::new(params.parse()?).local_private_key(secret).build_initiator()
}

/// `snow::Builder` with a local private key, `build_responder`: with the
/// parameters of this library it succeeds with a handshake that has not begun.
#[verifier::external_body]
fn build_responder(params: &str, secret: &[u8; 32]) -> (r: std::result::Result<
    snow::HandshakeState,
    snow::Error,
>)
    ensures
        params@ == noise_params() ==> r is Ok && fresh_handshake(
            handshake_model(r->Ok_0),
            false,
            secret@,
        ),
{
    snow::Builder::new(params.parse()?).local_private_key(secret).build_responder()
}

/// The text of a `snow::Error`, as its `Display` writes it.
#[verifier::external_body]
fn error_text(e: snow::Error) -> (s: String)
    ensures
        s@ == noise_error_text(e),
{
    e.to_string()
}

/// `HandshakeState::write_message` writes the next message of the pattern to
/// the front of the buffer and returns its length, or refuses. Its bytes rest
/// on a fresh ephemeral key; what is claimed of them is what their reader
/// finds in them: the writer's static key, the payload and, at the end, the
/// same transport keys. The public keys in them are those of X25519.
pub assume_specification[ snow::HandshakeState::write_message ](
    hs: &mut snow::HandshakeState,
    payload: &[u8],
    message: &mut [u8],
) -> (r: std::result::Result<usize, snow::Error>)
    requires
        handshake_model(*old(hs)).valid(),
        96 <= old(message)@.len() <= 65535,
    ensures
        final(message)@.len() == old(message)@.len(),
        match r {
            Ok(n) => {
                let m = handshake_model(*old(hs));
                &&& m.write_fault(payload@.len(), old(message)@.len()) is None
                &&& n <= old(message)@.len()
                &&& m.wrote(
                    handshake_model(*final(hs)),
                    payload@,
                    final(message)@.subrange(0, n as int),
                )
            },
            Err(e) => {
                let m = handshake_model(*old(hs));
                &&& m.write_fault(payload@.len(), old(message)@.len()) == Some(noise_error_text(e))
                &&& m.stayed(handshake_model(*final(hs)))
                &&& handshake_model(*final(hs)).remote_static == m.remote_static
                &&& !m.my_turn() || m.position >= 3 ==> handshake_model(*final(hs)) == m
            },
        },
;

/// `HandshakeState::read_message` reads the next message of the pattern,
/// writes its payload to the front of the buffer and returns its length, or
/// refuses. What it finds in a message after the first, and whether it can be
/// decrypted at all, is a function of the side's secrets and of the messages
/// that have passed, which is named here.
pub assume_specification[ snow::HandshakeState::read_message ](
    hs: &mut snow::HandshakeState,
    message: &[u8],
    payload: &mut [u8],
) -> (r: std::result::Result<usize, snow::Error>)
    requires
        handshake_model(*old(hs)).valid(),
    ensures
        final(payload)@.len() == old(payload)@.len(),
        match r {
            Ok(n) => {
                let m = handshake_model(*old(hs));
                &&& m.read_fault(message@.len(), old(payload)@.len()) is None
                &&& n <= old(payload)@.len()
                &&& m.read(
                    handshake_model(*final(hs)),
                    message@,
                    final(payload)@.subrange(0, n as int),
                )
            },
            Err(e) => {
                let m = handshake_model(*old(hs));
                &&& m.stayed(handshake_model(*final(hs)))
                &&& message@.len() > 65535 || m.my_turn() || m.position >= 3 ==> handshake_model(
                    *final(hs),
                ) == m
                &&& match m.read_fault(message@.len(), old(payload)@.len()) {
                    Some(t) => noise_error_text(e) == t,
                    None => {
                        &&& m.position > 0
                        &&& noise_error_text(e) == "decrypt error"@
                        &&& m.clean ==> handshake_opened(
                            m.ephemeral,
                            m.local_secret,
                            m.transcript.push(message@),
                        ) is None
                    },
                }
            },
        },
;

/// `HandshakeState::is_handshake_finished`: all three messages have passed.
pub assume_specification[ snow::HandshakeState::is_handshake_finished ](
    hs: &snow::HandshakeState,
) -> (r: bool)
    ensures
        handshake_model(*hs).valid() ==> r == (handshake_model(*hs).position == 3),
;

/// `HandshakeState::get_remote_static`: the peer's static key, once known.
pub assume_specification[ snow::HandshakeState::get_remote_static ](
    hs: &snow::HandshakeState,
) -> (r: Option<&[u8]>)
    ensures
        match r {
            Some(k) => handshake_model(*hs).remote_static == Some(k@),
            None => handshake_model(*hs).remote_static is None,
        },
;

/// `HandshakeState::into_transport_mode`: a finished handshake becomes a
/// transport with its keys and counters at zero; another is refused.
pub assume_specification[ snow::HandshakeState::into_transport_mode ](
    hs: snow::HandshakeState,
) -> (r: std::result::Result<snow::TransportState, snow::Error>)
    ensures
        handshake_model(hs).valid() ==> match r {
            Ok(ts) => {
                &&& handshake_model(hs).position == 3
                &&& transport_model(ts) == transport_of(handshake_model(hs))
            },
            Err(e) => {
                &&& handshake_model(hs).position != 3
                &&& noise_error_text(e) == "state error: HandshakeNotFinished"@
            },
        },
;

/// The transport that follows a finished handshake.
pub open spec fn transport_of(m: HandshakeModel) -> TransportModel {
    TransportModel {
        send_key: if m.initiator {
            m.initiator_key
        } else {
            m.responder_key
        },
        sent: 0,
        receive_key: if m.initiator {
            m.responder_key
        } else {
            m.initiator_key
        },
        received: 0,
        remote_static: m.remote_static,
        may_send: true,
        may_receive: true,
    }
}

/// `TransportState::write_message` encrypts a payload under the sending key
/// and counter, writes the message to the front of the buffer and returns its
/// length, or refuses with the state as it was. The message opens to the
/// payload under the same key and counter.
pub assume_specification[ snow::TransportState::write_message ](
    ts: &mut snow::TransportState,
    payload: &[u8],
    message: &mut [u8],
) -> (r: std::result::Result<usize, snow::Error>)
    ensures
        final(message)@.len() == old(message)@.len(),
        match r {
            Ok(n) => {
                let m = transport_model(*old(ts));
                &&& m.send_fault(payload@.len(), old(message)@.len()) is None
                &&& n == payload@.len() + 16
                &&& final(message)@.subrange(0, n as int) == noise_sealed(
                    m.send_key,
                    m.sent,
                    payload@,
                )
                &&& noise_opened(m.send_key, m.sent, final(message)@.subrange(0, n as int)) == Some(
                    payload@,
                )
                &&& transport_model(*final(ts)) == m.after_send()
            },
            Err(e) => {
                let m = transport_model(*old(ts));
                &&& m.send_fault(payload@.len(), old(message)@.len()) == Some(noise_error_text(e))
                &&& transport_model(*final(ts)) == m
            },
        },
;

/// `TransportState::read_message` decrypts a message under the receiving key
/// and counter, writes its payload to the front of the buffer and returns its
/// length, or refuses with the state as it was.
pub assume_specification[ snow::TransportState::read_message ](
    ts: &mut snow::TransportState,
    payload: &[u8],
    message: &mut [u8],
) -> (r: std::result::Result<usize, snow::Error>)
    ensures
        final(message)@.len() == old(message)@.len(),
        match r {
            Ok(n) => {
                let m = transport_model(*old(ts));
                &&& m.receive_fault(payload@, old(message)@.len()) is None
                &&& n + 16 == payload@.len()
                &&& noise_opened(m.receive_key, m.received, payload@) == Some(
                    final(message)@.subrange(0, n as int),
                )
                &&& transport_model(*final(ts)) == m.after_receive()
            },
            Err(e) => {
                let m = transport_model(*old(ts));
                &&& m.receive_fault(payload@, old(message)@.len()) == Some(noise_error_text(e))
                &&& transport_model(*final(ts)) == m
            },
        },
;

/// `TransportState::get_remote_static`: the peer's static key.
pub assume_specification[ snow::TransportState::get_remote_static ](
    ts: &snow::TransportState,
) -> (r: Option<&[u8]>)
    ensures
        match r {
            Some(k) => transport_model(*ts).remote_static == Some(k@),
            None => transport_model(*ts).remote_static is None,
        },
;

/// A Noise_XX handshake in progress, or the transport that followed it.
pub enum NoiseSession {
    Handshaking(snow::HandshakeState),
    Transport(snow::TransportState),
}

/// Which side of the handshake a device takes.
pub enum Role {
    Initiator,
    Responder,
}

/// The buffer that handshake messages are written to and read into.
pub const HANDSHAKE_BUFFER: usize = 4096;

impl NoiseSession {
    /// A handshake of this library's pattern; a transport is always in order.
    pub open spec fn wf(self) -> bool {
        match self {
            NoiseSession::Handshaking(hs) => handshake_model(hs).valid(),
            NoiseSession::Transport(_) => true,
        }
    }

    /// The peer's static key, once it is known.
    pub open spec fn remote_static(self) -> Option<Seq<u8>> {
        match self {
            NoiseSession::Handshaking(hs) => handshake_model(hs).remote_static,
            NoiseSession::Transport(ts) => transport_model(ts).remote_static,
        }
    }

    /// Begins a handshake with the device's static key.
    pub fn new(identity: &DeviceIdentity, role: Role) -> (r: Result<Self>)
        ensures
            r matches Ok(NoiseSession::Handshaking(hs)) && fresh_handshake(
                handshake_model(hs),
                role is Initiator,
                identity.noise_static@,
            ),
            r->Ok_0.wf(),
    {
        let built = match role {
            Role::Initiator => build_initiator(
                "Noise_XX_25519_ChaChaPoly_SHA256",
                &identity.noise_static,
            ),
            Role::Responder => build_responder(
                "Noise_XX_25519_ChaChaPoly_SHA256",
                &identity.noise_static,
            ),
        };
        match built {
            Ok(hs) => Ok(NoiseSession::Handshaking(hs)),
            Err(e) => Err(CoreError::Crypto(error_text(e))),
        }
    }

    /// Writes the next handshake message, the bytes to send to the peer.
    pub fn write_handshake_message(&mut self, payload: &[u8]) -> (r: Result<Vec<u8>>)
        requires
            old(self).wf(),
        ensures
            final(self).wf(),
            match *old(self) {
                NoiseSession::Handshaking(before) => {
                    let m = handshake_model(before);
                    let fault = m.write_fault(payload@.len(), HANDSHAKE_BUFFER as nat);
                    &&& *final(self) matches NoiseSession::Handshaking(after)
                    &&& match r {
                        Ok(message) => {
                            &&& fault is None
                            &&& m.wrote(handshake_model(after), payload@, message@)
                        },
                        Err(e) => {
                            &&& fault is Some
                            &&& m.stayed(handshake_model(after))
                            &&& handshake_model(after).remote_static == m.remote_static
                            &&& !m.my_turn() || m.position >= 3 ==> handshake_model(after) == m
                            &&& e@ == ErrorView::Crypto(fault->Some_0)
                        },
                    }
                },
                NoiseSession::Transport(_) => {
                    &&& *final(self) == *old(self)
                    &&& r matches Err(e) && e@ == ErrorView::InvalidState(
                        "handshake already complete"@,
                    )
                },
            },
    {
        match self {
            NoiseSession::Handshaking(hs) => {
                let mut buf: Vec<u8> = vec![0u8; HANDSHAKE_BUFFER];
                match hs.write_message(payload, buf.as_mut_slice()) {
                    Ok(len) => {
                        buf.truncate(len);
                        Ok(buf)
                    },
                    Err(e) => Err(CoreError::Crypto(error_text(e))),
                }
            },
            NoiseSession::Transport(_) => Err(
                CoreError::invalid_state("handshake already complete"),
            ),
        }
    }

    /// Reads a handshake message of the peer and returns its payload.
    pub fn read_handshake_message(&mut self, msg: &[u8]) -> (r: Result<Vec<u8>>)
        requires
            old(self).wf(),
        ensures
            final(self).wf(),
            match *old(self) {
                NoiseSession::Handshaking(before) => {
                    let m = handshake_model(before);
                    let fault = m.read_fault(msg@.len(), HANDSHAKE_BUFFER as nat);
                    &&& *final(self) matches NoiseSession::Handshaking(after)
                    &&& match r {
                        Ok(payload) => {
                            &&& fault is None
                            &&& m.read(handshake_model(after), msg@, payload@)
                        },
                        Err(e) => {
                            &&& m.stayed(handshake_model(after))
                            &&& msg@.len() > 65535 || m.my_turn() || m.position >= 3
                                ==> handshake_model(after) == m
                            &&& match fault {
                                Some(t) => e@ == ErrorView::Crypto(t),
                                None => {
                                    &&& m.position > 0
                                    &&& e@ == ErrorView::Crypto("decrypt error"@)
                                    &&& m.clean ==> m.opening(msg@) is None
                                },
                            }
                        },
                    }
                },
                NoiseSession::Transport(_) => {
                    &&& *final(self) == *old(self)
                    &&& r matches Err(e) && e@ == ErrorView::InvalidState(
                        "handshake already complete"@,
                    )
                },
            },
    {
        match self {
            NoiseSession::Handshaking(hs) => {
                let mut buf: Vec<u8> = vec![0u8; HANDSHAKE_BUFFER];
                match hs.read_message(msg, buf.as_mut_slice()) {
                    Ok(len) => {
                        buf.truncate(len);
                        Ok(buf)
                    },
                    Err(e) => Err(CoreError::Crypto(error_text(e))),
                }
            },
            NoiseSession::Transport(_) => Err(
                CoreError::invalid_state("handshake already complete"),
            ),
        }
    }

    /// Turns a finished handshake into a transport. A transport stays one.
    pub fn into_transport_mode(self) -> (r: Result<Self>)
        requires
            self.wf(),
        ensures
            match self {
                NoiseSession::Handshaking(hs) => match r {
                    Ok(s) => {
                        &&& handshake_model(hs).position == 3
                        &&& s matches NoiseSession::Transport(ts) && transport_model(ts)
                            == transport_of(handshake_model(hs))
                    },
                    Err(e) => {
                        &&& handshake_model(hs).position != 3
                        &&& e@ == ErrorView::Crypto("state error: HandshakeNotFinished"@)
                    },
                },
                NoiseSession::Transport(_) => r == Ok::<Self, CoreError>(self),
            },
    {
        match self {
            NoiseSession::Handshaking(hs) => match hs.into_transport_mode() {
                Ok(ts) => Ok(NoiseSession::Transport(ts)),
                Err(e) => Err(CoreError::Crypto(error_text(e))),
            },
            NoiseSession::Transport(ts) => Ok(NoiseSession::Transport(ts)),
        }
    }

    pub fn is_handshake_finished(&self) -> (r: bool)
        requires
            self.wf(),
        ensures
            r == match *self {
                NoiseSession::Handshaking(hs) => handshake_model(hs).position == 3,
                NoiseSession::Transport(_) => true,
            },
    {
        match self {
            NoiseSession::Handshaking(hs) => hs.is_handshake_finished(),
            NoiseSession::Transport(_) => true,
        }
    }

    /// The peer's static public key, from which its identifier is computed.
    pub fn peer_static_key(&self) -> (r: Option<Vec<u8>>)
        ensures
            match r {
                Some(k) => self.remote_static() == Some(k@),
                None => self.remote_static() is None,
            },
    {
        let key: Option<&[u8]> = match self {
            NoiseSession::Handshaking(hs) => hs.get_remote_static(),
            NoiseSession::Transport(ts) => ts.get_remote_static(),
        };
        match key {
            Some(k) => Some(bytes::to_vec(k)),
            None => None,
        }
    }

    /// What encrypting a plaintext gives, or why it is refused.
    pub open spec fn encryption(self, plaintext: Seq<u8>) -> core::result::Result<
        Seq<u8>,
        ErrorView,
    > {
        match self {
            NoiseSession::Transport(ts) => {
                let m = transport_model(ts);
                if plaintext.len() > 65519 {
                    Err(ErrorView::Crypto("input error"@))
                } else if m.send_fault(plaintext.len(), plaintext.len() + 16) is Some {
                    Err(
                        ErrorView::Crypto(
                            m.send_fault(plaintext.len(), plaintext.len() + 16)->Some_0,
                        ),
                    )
                } else {
                    Ok(noise_sealed(m.send_key, m.sent, plaintext))
                }
            },
            NoiseSession::Handshaking(_) => Err(ErrorView::InvalidState("not in transport mode"@)),
        }
    }

    /// The session after encrypting a plaintext: one message further where it
    /// was encrypted, and as it was where it was refused.
    pub open spec fn after_encryption(self, plaintext: Seq<u8>, after: NoiseSession) -> bool {
        match self {
            NoiseSession::Transport(ts) => {
                &&& after matches NoiseSession::Transport(ts2)
                &&& transport_model(ts2) == (if self.encryption(plaintext) is Ok {
                    transport_model(ts).after_send()
                } else {
                    transport_model(ts)
                })
            },
            NoiseSession::Handshaking(_) => after == self,
        }
    }

    /// What decrypting a message gives, or why it is refused.
    pub open spec fn decryption(self, message: Seq<u8>) -> core::result::Result<Seq<u8>, ErrorView> {
        match self {
            NoiseSession::Transport(ts) => {
                let m = transport_model(ts);
                if m.receive_fault(message, message.len()) is Some {
                    Err(ErrorView::Crypto(m.receive_fault(message, message.len())->Some_0))
                } else {
                    Ok(noise_opened(m.receive_key, m.received, message)->Some_0)
                }
            },
            NoiseSession::Handshaking(_) => Err(ErrorView::InvalidState("not in transport mode"@)),
        }
    }

    /// The session after decrypting a message.
    pub open spec fn after_decryption(self, message: Seq<u8>, after: NoiseSession) -> bool {
        match self {
            NoiseSession::Transport(ts) => {
                &&& after matches NoiseSession::Transport(ts2)
                &&& transport_model(ts2) == (if self.decryption(message) is Ok {
                    transport_model(ts).after_receive()
                } else {
                    transport_model(ts)
                })
            },
            NoiseSession::Handshaking(_) => after == self,
        }
    }

    /// Encrypts a plaintext of at most 65519 bytes for the peer. The message is
    /// 16 bytes longer, and the peer that is in step opens it to the plaintext.
    pub fn encrypt(&mut self, plaintext: &[u8]) -> (r: Result<Vec<u8>>)
        ensures
            old(self).after_encryption(plaintext@, *final(self)),
            match r {
                Ok(message) => {
                    &&& old(self).encryption(plaintext@) == Ok::<_, ErrorView>(message@)
                    &&& message@.len() == plaintext@.len() + 16
                    &&& *old(self) matches NoiseSession::Transport(ts) && noise_opened(
                        transport_model(ts).send_key,
                        transport_model(ts).sent,
                        message@,
                    ) == Some(plaintext@)
                },
                Err(e) => old(self).encryption(plaintext@) == Err::<Seq<u8>, _>(e@),
            },
    {
        match self {
            NoiseSession::Transport(ts) => {
                if plaintext.len() > 65519 {
                    return Err(CoreError::crypto("input error"));
                }
                let mut buf: Vec<u8> = vec![0u8; plaintext.len() + 16];
                match ts.write_message(plaintext, buf.as_mut_slice()) {
                    Ok(len) => {
                        buf.truncate(len);
                        Ok(buf)
                    },
                    Err(e) => Err(CoreError::Crypto(error_text(e))),
                }
            },
            NoiseSession::Handshaking(_) => Err(CoreError::invalid_state("not in transport mode")),
        }
    }

    /// Decrypts a message of the peer.
    pub fn decrypt(&mut self, ciphertext: &[u8]) -> (r: Result<Vec<u8>>)
        ensures
            old(self).after_decryption(ciphertext@, *final(self)),
            match r {
                Ok(plaintext) => old(self).decryption(ciphertext@) == Ok::<_, ErrorView>(
                    plaintext@,
                ),
                Err(e) => old(self).decryption(ciphertext@) == Err::<Seq<u8>, _>(e@),
            },
    {
        match self {
            NoiseSession::Transport(ts) => {
                let mut buf: Vec<u8> = vec![0u8; ciphertext.len()];
                match ts.read_message(ciphertext, buf.as_mut_slice()) {
                    Ok(len) => {
                        buf.truncate(len);
                        Ok(buf)
                    },
                    Err(e) => Err(CoreError::Crypto(error_text(e))),
                }
            },
            NoiseSession::Handshaking(_) => Err(CoreError::invalid_state("not in transport mode")),
        }
    }
}

/// What one side encrypts and the other receives next, decrypts to the same
/// plaintext, and the two stay in step: the law that in-order messages of a
/// session arrive as they were sent. `message` is what
/// [`NoiseSession::encrypt`] returns for `plaintext`.
pub proof fn messages_arrive_as_sent(
    sender: TransportModel,
    receiver: TransportModel,
    plaintext: Seq<u8>,
    message: Seq<u8>,
)
    requires
        sender.feeds(receiver),
        receiver.may_receive,
        sender.send_fault(plaintext.len(), plaintext.len() + 16) is None,
        message.len() == plaintext.len() + 16,
        noise_opened(sender.send_key, sender.sent, message) == Some(plaintext),
    ensures
        receiver.receive_fault(message, message.len()) is None,
        noise_opened(receiver.receive_key, receiver.received, message) == Some(plaintext),
        sender.after_send().feeds(receiver.after_receive()),
{
}

/// The two sides of a handshake that have exchanged the same messages: each
/// has the ephemeral key that the other saw, knows the other's static key as
/// soon as it has been sent, and at the end has the other's transport keys.
pub open spec fn paired(i: HandshakeModel, r: HandshakeModel) -> bool {
    &&& i.valid() && i.initiator && i.clean
    &&& r.valid() && !r.initiator && r.clean
    &&& i.transcript == r.transcript
    &&& i.position >= 1 ==> i.transcript[0].take(32) == x25519_public_of(i.ephemeral)
    &&& i.position >= 2 ==> {
        &&& i.transcript[1].take(32) == x25519_public_of(r.ephemeral)
        &&& i.remote_static == Some(x25519_public_of(r.local_secret))
    }
    &&& i.position >= 3 ==> {
        &&& r.remote_static == Some(x25519_public_of(i.local_secret))
        &&& r.initiator_key == i.initiator_key
        &&& r.responder_key == i.responder_key
    }
}

/// Two sides that have just begun are in step.
pub proof fn fresh_sides_are_paired(
    i: HandshakeModel,
    r: HandshakeModel,
    initiator_secret: Seq<u8>,
    responder_secret: Seq<u8>,
)
    requires
        fresh_handshake(i, true, initiator_secret),
        fresh_handshake(r, false, responder_secret),
    ensures
        paired(i, r),
{
    assert(i.transcript =~= r.transcript);
}

/// A message of one side is opened by the other: whatever the reader has room
/// for, it does not refuse.
pub proof fn written_message_opens(
    i: HandshakeModel,
    r: HandshakeModel,
    after: HandshakeModel,
    payload: Seq<u8>,
    message: Seq<u8>,
)
    requires
        paired(i, r),
        0 < i.position < 3,
        i.my_turn() ==> i.wrote(after, payload, message),
        r.my_turn() ==> r.wrote(after, payload, message),
    ensures
        i.my_turn() ==> r.opening(message) is Some,
        r.my_turn() ==> i.opening(message) is Some,
{
    if i.my_turn() {
        assert(i.meets(r.ephemeral, r.local_secret));
        assert(handshake_opened(r.ephemeral, r.local_secret, after.transcript) is Some);
    } else {
        assert(r.meets(i.ephemeral, i.local_secret));
        assert(handshake_opened(i.ephemeral, i.local_secret, after.transcript) is Some);
    }
}

/// A message that one side writes and the other reads brings the payload over
/// and leaves the two in step.
pub proof fn passed_message_keeps_sides_paired(
    i: HandshakeModel,
    r: HandshakeModel,
    i_after: HandshakeModel,
    r_after: HandshakeModel,
    payload: Seq<u8>,
    message: Seq<u8>,
    received: Seq<u8>,
)
    requires
        paired(i, r),
        i.position < 3,
        i.my_turn() ==> i.wrote(i_after, payload, message) && r.read(r_after, message, received),
        r.my_turn() ==> r.wrote(r_after, payload, message) && i.read(i_after, message, received),
    ensures
        paired(i_after, r_after),
        received == payload,
{
    if i.position > 0 {
        if i.my_turn() {
            assert(i.meets(r.ephemeral, r.local_secret));
            assert(handshake_opened(r.ephemeral, r.local_secret, i_after.transcript) is Some);
        } else {
            assert(r.meets(i.ephemeral, i.local_secret));
            assert(handshake_opened(i.ephemeral, i.local_secret, r_after.transcript) is Some);
        }
    }
}

/// A finished handshake has told each side the other's static key, and the
/// transports of the two feed each other in both directions.
pub proof fn finished_sides_agree(i: HandshakeModel, r: HandshakeModel)
    requires
        paired(i, r),
        i.position == 3,
    ensures
        i.remote_static == Some(x25519_public_of(r.local_secret)),
        r.remote_static == Some(x25519_public_of(i.local_secret)),
        transport_of(i).feeds(transport_of(r)),
        transport_of(r).feeds(transport_of(i)),
{
}

/// A whole handshake: three messages, each written by one side and read by the
/// other. The payloads arrive, each side knows the other's static key, and the
/// two can encrypt for each other.
pub proof fn whole_handshake_agrees(
    i: (HandshakeModel, HandshakeModel, HandshakeModel, HandshakeModel),
    r: (HandshakeModel, HandshakeModel, HandshakeModel, HandshakeModel),
    initiator_secret: Seq<u8>,
    responder_secret: Seq<u8>,
    messages: (Seq<u8>, Seq<u8>, Seq<u8>),
    sent: (Seq<u8>, Seq<u8>, Seq<u8>),
    received: (Seq<u8>, Seq<u8>, Seq<u8>),
)
    requires
        fresh_handshake(i.0, true, initiator_secret),
        fresh_handshake(r.0, false, responder_secret),
        i.0.wrote(i.1, sent.0, messages.0),
        r.0.read(r.1, messages.0, received.0),
        r.1.wrote(r.2, sent.1, messages.1),
        i.1.read(i.2, messages.1, received.1),
        i.2.wrote(i.3, sent.2, messages.2),
        r.2.read(r.3, messages.2, received.2),
    ensures
        received == sent,
        i.3.remote_static == Some(x25519_public_of(responder_secret)),
        r.3.remote_static == Some(x25519_public_of(initiator_secret)),
        transport_of(i.3).feeds(transport_of(r.3)),
        transport_of(r.3).feeds(transport_of(i.3)),
{
    fresh_sides_are_paired(i.0, r.0, initiator_secret, responder_secret);
    passed_message_keeps_sides_paired(i.0, r.0, i.1, r.1, sent.0, messages.0, received.0);
    passed_message_keeps_sides_paired(i.1, r.1, i.2, r.2, sent.1, messages.1, received.1);
    passed_message_keeps_sides_paired(i.2, r.2, i.3, r.3, sent.2, messages.2, received.2);
    finished_sides_agree(i.3, r.3);
}

} // verus!
