//! The sequence of handshake messages on either side of a connection, and the
//! check of the peer's identity at its end. The bytes travel over a stream or
//! a relay; the sequence is the same.
use vstd::prelude::*;

use crate::error::{CoreError, ErrorView, Result};
use crate::identity::{device_id_of, DeviceIdentity};
use crate::noise_session::{
    fresh_handshake, handshake_model, paired, transport_model, transport_of, HandshakeModel,
    NoiseSession, Role, HANDSHAKE_BUFFER,
};
use crate::text::{concat4, str_equal};

verus! {

/// Where the bytes of a handshake travel; it decides the wording of errors.
#[derive(Clone, Copy, PartialEq, Eq, Structural)]
pub enum HandshakeRoute {
    Direct,
    Relay,
}

/// One side of a handshake in progress.
pub struct Handshake {
    pub noise: NoiseSession,
}

/// A session whose peer has proved who it is.
pub struct Authenticated {
    pub device_id: String,
    pub peer_static_key: Vec<u8>,
    pub noise: NoiseSession,
}

/// The peer's key is known to the initiator after the second message and to
/// the responder after the third.
pub open spec fn knows_peer(m: HandshakeModel) -> bool {
    (if m.initiator {
        m.position >= 2
    } else {
        m.position >= 3
    }) ==> m.remote_static is Some && m.remote_static->Some_0.len() == 32
}

/// The text of the error for a peer that is not the expected one.
pub open spec fn mismatch_text(route: HandshakeRoute, expected: Seq<char>, actual: Seq<char>) -> Seq<
    char,
> {
    if route is Direct {
        "peer identity mismatch: expected "@ + expected + ", got "@ + actual
    } else {
        "relay peer identity mismatch: expected "@ + expected + ", got "@ + actual
    }
}

impl Handshake {
    pub open spec fn model(self) -> HandshakeModel {
        handshake_model(self.noise->Handshaking_0)
    }

    pub open spec fn wf(self) -> bool {
        &&& self.noise is Handshaking
        &&& self.model().valid()
        &&& knows_peer(self.model())
    }

    /// This side waits for a message of the peer.
    pub open spec fn awaiting(self) -> bool {
        !self.model().my_turn() && self.model().position < 3
    }

    pub open spec fn finished(self) -> bool {
        self.model().position == 3
    }

    /// Begins a handshake. The initiator gets the first message to send, 32
    /// bytes long; the responder waits for it.
    pub fn begin(identity: &DeviceIdentity, role: Role) -> (r: Result<(Self, Option<Vec<u8>>)>)
        ensures
            r is Ok,
            r->Ok_0.0.wf(),
            r->Ok_0.0.awaiting(),
            match r->Ok_0.1 {
                Some(first) => {
                    &&& role is Initiator
                    &&& first@.len() == 32
                    &&& exists|fresh: HandshakeModel| #[trigger]
                        fresh_handshake(fresh, true, identity.noise_static@) && fresh.wrote(
                            r->Ok_0.0.model(),
                            Seq::empty(),
                            first@,
                        )
                },
                None => {
                    &&& role is Responder
                    &&& fresh_handshake(r->Ok_0.0.model(), false, identity.noise_static@)
                },
            },
    {
        let leads: bool = match role {
            Role::Initiator => true,
            Role::Responder => false,
        };
        let mut noise: NoiseSession = match NoiseSession::new(
            identity,
            if leads {
                Role::Initiator
            } else {
                Role::Responder
            },
        ) {
            Ok(n) => n,
            Err(e) => {
                return Err(e);
            },
        };
        if leads {
            let ghost fresh = handshake_model(noise->Handshaking_0);
            let nothing: [u8; 0] = [];
            assert(nothing@ =~= Seq::<u8>::empty());
            let first: Vec<u8> = match noise.write_handshake_message(&nothing) {
                Ok(m) => m,
                Err(e) => {
                    return Err(e);
                },
            };
            assert(fresh_handshake(fresh, true, identity.noise_static@));
            Ok((Handshake { noise }, Some(first)))
        } else {
            Ok((Handshake { noise }, None))
        }
    }

    /// Takes the peer's next message and returns the answer to send, if one is
    /// due: the responder answers the first message, the initiator the second.
    /// Whether a message after the first is accepted rests on its decryption.
    pub fn receive(&mut self, message: &[u8]) -> (r: Result<Option<Vec<u8>>>)
        requires
            old(self).wf(),
            old(self).awaiting(),
        ensures
            final(self).wf(),
            ({
                let m = old(self).model();
                let fault = m.read_fault(message@.len(), HANDSHAKE_BUFFER as nat);
                match r {
                    Ok(answer) => {
                        &&& fault is None
                        &&& exists|between: HandshakeModel, payload: Seq<u8>| #[trigger]
                            m.read(between, message@, payload) && match answer {
                                Some(a) => {
                                    &&& m.position < 2
                                    &&& between.wrote(final(self).model(), Seq::empty(), a@)
                                },
                                None => {
                                    &&& m.position == 2
                                    &&& final(self).model() == between
                                },
                            }
                    },
                    Err(e) => {
                        &&& m.stayed(final(self).model())
                        &&& match fault {
                            Some(t) => e@ == ErrorView::Crypto(t),
                            None => {
                                &&& m.position > 0
                                &&& e@ == ErrorView::Crypto("decrypt error"@)
                                &&& m.clean ==> m.opening(message@) is None
                            },
                        }
                    },
                }
            }),
    {
        match self.noise.read_handshake_message(message) {
            Ok(payload) => {
                assert(old(self).model().read(self.model(), message@, payload@));
            },
            Err(e) => {
                return Err(e);
            },
        }
        if self.noise.is_handshake_finished() {
            return Ok(None);
        }
        let ghost between = self.model();
        let nothing: [u8; 0] = [];
        assert(nothing@ =~= Seq::<u8>::empty());
        match self.noise.write_handshake_message(&nothing) {
            Ok(answer) => {
                assert(between.wrote(self.model(), Seq::empty(), answer@));
                Ok(Some(answer))
            },
            Err(e) => Err(e),
        }
    }

    /// Ends a finished handshake: computes the peer's identifier from the key
    /// it showed, compares it with the expected one, if any, and turns the
    /// session to transport.
    pub fn finish(self, route: HandshakeRoute, expected_device_id: Option<&String>) -> (r: Result<
        Authenticated,
    >)
        requires
            self.wf(),
            self.finished(),
        ensures
            ({
                let key = self.model().remote_static->Some_0;
                let matching = expected_device_id matches Some(id) ==> id@ == device_id_of(key);
                match r {
                    Ok(a) => {
                        &&& matching
                        &&& a.device_id@ == device_id_of(key)
                        &&& a.peer_static_key@ == key
                        &&& a.noise matches NoiseSession::Transport(ts) && transport_model(ts)
                            == transport_of(self.model())
                    },
                    Err(e) => {
                        &&& !matching
                        &&& e@ == ErrorView::InvalidState(
                            mismatch_text(
                                route,
                                expected_device_id->Some_0@,
                                device_id_of(key),
                            ),
                        )
                    },
                }
            }),
    {
        let peer_static_key: Vec<u8> = match self.noise.peer_static_key() {
            Some(k) => k,
            None => {
                return Err(
                    CoreError::crypto(
                        match route {
                            HandshakeRoute::Direct => "no remote static key after handshake",
                            HandshakeRoute::Relay => "no remote static key after relay handshake",
                        },
                    ),
                );
            },
        };
        let device_id: String = DeviceIdentity::device_id_from_public_key(&peer_static_key);
        if let Some(expected) = expected_device_id {
            if !str_equal(expected.as_str(), device_id.as_str()) {
                let start: &str = match route {
                    HandshakeRoute::Direct => "peer identity mismatch: expected ",
                    HandshakeRoute::Relay => "relay peer identity mismatch: expected ",
                };
                return Err(
                    CoreError::InvalidState(
                        concat4(start, expected.as_str(), ", got ", device_id.as_str()),
                    ),
                );
            }
        }
        match self.noise.into_transport_mode() {
            Ok(noise) => Ok(Authenticated { device_id, peer_static_key, noise }),
            Err(e) => Err(e),
        }
    }
}

/// After a handshake, the identifier that each side computes from the key it
/// was told is the other's own: neither can be taken for somebody else.
pub proof fn sides_identify_each_other(
    i: HandshakeModel,
    r: HandshakeModel,
    initiator: DeviceIdentity,
    responder: DeviceIdentity,
)
    requires
        paired(i, r),
        i.position == 3,
        i.local_secret == initiator.noise_static@,
        r.local_secret == responder.noise_static@,
        initiator.id_matches(),
        initiator.noise_key_matches(),
        responder.id_matches(),
        responder.noise_key_matches(),
    ensures
        i.remote_static matches Some(k) && device_id_of(k) == responder.device_id@,
        r.remote_static matches Some(k) && device_id_of(k) == initiator.device_id@,
{
}

} // verus!
