//! Connections over the internet: candidate addresses passed through a
//! signaling server, and the relay that remains where no direct connection is
//! possible.
use vstd::prelude::*;
use vstd::utf8::{encode_utf8, encode_utf8_decode_utf8};

use super::{ConnectionManager, ManagerView};
use crate::crypto;
use crate::error::{CoreError, ErrorView, Result};
use crate::noise_session::Role;
use crate::signaling::SignalingMessage;
use crate::signaling_client::{offer_candidates, request_relay, SignalingEvent};
use crate::stun_client::{endpoint_text, Ipv4Endpoint};
use crate::text::{bytes_before, bytes_before_is_total, concat2, text_before};

verus! {

/// What an event of the signaling server leads to.
pub enum SignalingAction {
    Nothing,
    /// The server refused the registration: log it.
    RegistrationFailed { error: String },
    /// Try to reach the peer at these addresses, in order, and report whether
    /// it worked.
    TryCandidates { peer_device_id: String, session_id: String, candidates: Vec<String> },
    /// Send this to the server.
    Reply(SignalingMessage),
    /// The server speaks of a session that this device does not know: log it.
    UnknownSession { session_id: String },
    /// Begin a handshake over the relay.
    StartHandshake { session_id: String, peer_device_id: String, role: Role },
    /// Hand the bytes to the handshake in progress.
    FeedHandshake { session_id: String, data: Vec<u8> },
    /// Decrypt the bytes with the peer's session and dispatch the message.
    Deliver { link: u64, peer_device_id: String, data: Vec<u8> },
    /// The bytes are for a peer without a session: log it.
    NoSession { peer_device_id: String },
}

/// Of two devices that meet on a relay, the one whose identifier comes first
/// begins the handshake. Nobody dialled, so this is what both sides can know.
pub open spec fn leads_on_relay(device_id: Seq<char>, peer: Seq<char>) -> bool {
    bytes_before(encode_utf8(device_id), encode_utf8(peer))
}

impl ManagerView {
    /// What is to be done when the relay of a session is ready.
    pub open spec fn relay_ready_matches(self, session_id: String, a: SignalingAction) -> bool {
        if !self.signaling_sessions.contains_key(session_id@) {
            a == (SignalingAction::UnknownSession { session_id })
        } else {
            let peer = self.signaling_sessions[session_id@];
            if self.sessions.contains_key(peer@) {
                a is Nothing
            } else {
                &&& a matches SignalingAction::StartHandshake {
                    session_id: s,
                    peer_device_id: p,
                    role,
                }
                &&& s == session_id
                &&& p == peer
                &&& (role is Initiator <==> leads_on_relay(self.device_id@, peer@))
            }
        }
    }

    /// What is to be done with bytes that came over a relay: a handshake in
    /// progress has them first; otherwise they are a message of the peer.
    pub open spec fn relay_data_action(
        self,
        session_id: String,
        data: Vec<u8>,
    ) -> SignalingAction {
        if self.relay_waiters.contains_key(session_id@) {
            SignalingAction::FeedHandshake { session_id, data }
        } else if !self.signaling_sessions.contains_key(session_id@) {
            SignalingAction::UnknownSession { session_id }
        } else {
            let peer = self.signaling_sessions[session_id@];
            if self.sessions.contains_key(peer@) {
                SignalingAction::Deliver {
                    link: self.sessions[peer@],
                    peer_device_id: peer,
                    data,
                }
            } else {
                SignalingAction::NoSession { peer_device_id: peer }
            }
        }
    }

    /// The action that an event leads to is this one.
    pub open spec fn signaling_reaction_matches(
        self,
        event: SignalingEvent,
        a: SignalingAction,
    ) -> bool {
        match event {
            SignalingEvent::Registered => a is Nothing,
            SignalingEvent::RegisterFailed { error } => a == (SignalingAction::RegistrationFailed {
                error,
            }),
            SignalingEvent::IncomingCandidates { from_device_id, session_id, candidates } => a == (
            SignalingAction::TryCandidates {
                peer_device_id: from_device_id,
                session_id,
                candidates,
            }),
            SignalingEvent::CandidateResult { session_id, direct_connection_likely } => if direct_connection_likely {
                a is Nothing
            } else {
                a == SignalingAction::Reply(SignalingMessage::RequestRelay { session_id })
            },
            SignalingEvent::RelayReady { session_id } => self.relay_ready_matches(session_id, a),
            SignalingEvent::RelayData { session_id, data } => a == self.relay_data_action(
                session_id,
                data,
            ),
            SignalingEvent::RelayClosed { .. } => a is Nothing,
            SignalingEvent::Disconnected => a is Nothing,
        }
    }

    /// The state after an event of the signaling server.
    pub open spec fn after_signaling(self, event: SignalingEvent) -> ManagerView {
        match event {
            SignalingEvent::IncomingCandidates { from_device_id, session_id, .. } => ManagerView {
                signaling_sessions: self.signaling_sessions.insert(session_id@, from_device_id),
                ..self
            },
            SignalingEvent::RelayClosed { session_id } => ManagerView {
                signaling_sessions: self.signaling_sessions.remove(session_id@),
                ..self
            },
            SignalingEvent::Disconnected => ManagerView { signaling: false, ..self },
            _ => self,
        }
    }
}

impl ConnectionManager {
    /// The signaling server has been reached.
    pub fn signaling_connected(&mut self)
        requires
            old(self)@.wf(),
        ensures
            final(self)@.wf(),
            final(self)@ == (ManagerView { signaling: true, ..old(self)@ }),
    {
        self.signaling = true;
    }

    /// What an event of the signaling server leads to.
    pub fn handle_signaling_event(&mut self, event: SignalingEvent) -> (r: SignalingAction)
        requires
            old(self)@.wf(),
        ensures
            final(self)@.wf(),
            final(self)@ == old(self)@.after_signaling(event),
            old(self)@.signaling_reaction_matches(event, r),
    {
        match event {
            SignalingEvent::Registered => SignalingAction::Nothing,
            SignalingEvent::RegisterFailed { error } => SignalingAction::RegistrationFailed {
                error,
            },
            SignalingEvent::IncomingCandidates { from_device_id, session_id, candidates } => {
                self.signaling_sessions.register(&session_id, &from_device_id);
                SignalingAction::TryCandidates {
                    peer_device_id: from_device_id,
                    session_id,
                    candidates,
                }
            },
            SignalingEvent::CandidateResult { session_id, direct_connection_likely } => {
                if direct_connection_likely {
                    SignalingAction::Nothing
                } else {
                    SignalingAction::Reply(request_relay(&session_id))
                }
            },
            SignalingEvent::RelayReady { session_id } => self.activate_relay_session(session_id),
            SignalingEvent::RelayData { session_id, data } => self.handle_relay_data(
                session_id,
                data,
            ),
            SignalingEvent::RelayClosed { session_id } => {
                self.signaling_sessions.remove(&session_id);
                SignalingAction::Nothing
            },
            SignalingEvent::Disconnected => {
                self.signaling = false;
                SignalingAction::Nothing
            },
        }
    }

    /// Both sides have asked for a relay: the handshake begins, unless the
    /// peer is connected already.
    fn activate_relay_session(&self, session_id: String) -> (r: SignalingAction)
        ensures
            self@.relay_ready_matches(session_id, r),
    {
        match self.signaling_sessions.peer_for_session(&session_id) {
            Some(peer_device_id) => {
                if self.sessions.contains_key(&peer_device_id) {
                    return SignalingAction::Nothing;
                }
                let role: Role = if text_before(
                    self.device_id.as_str(),
                    peer_device_id.as_str(),
                ) {
                    Role::Initiator
                } else {
                    Role::Responder
                };
                SignalingAction::StartHandshake { session_id, peer_device_id, role }
            },
            None => SignalingAction::UnknownSession { session_id },
        }
    }

    /// Bytes have come over a relay.
    fn handle_relay_data(&self, session_id: String, data: Vec<u8>) -> (r: SignalingAction)
        ensures
            r == self@.relay_data_action(session_id, data),
    {
        if self.relay_handshake_waiters.contains_key(&session_id) {
            return SignalingAction::FeedHandshake { session_id, data };
        }
        match self.signaling_sessions.peer_for_session(&session_id) {
            Some(peer_device_id) => match self.sessions.get(&peer_device_id) {
                Some(link) => SignalingAction::Deliver { link: *link, peer_device_id, data },
                None => SignalingAction::NoSession { peer_device_id },
            },
            None => SignalingAction::UnknownSession { session_id },
        }
    }

    /// A handshake over a relay begins: from now on the bytes of its session
    /// are for it.
    pub fn relay_handshake_started(&mut self, session_id: &String)
        requires
            old(self)@.wf(),
        ensures
            final(self)@.wf(),
            final(self)@ == (ManagerView {
                relay_waiters: old(self)@.relay_waiters.insert(session_id@, ()),
                ..old(self)@
            }),
    {
        self.relay_handshake_waiters.insert(session_id.clone(), ());
    }

    /// A handshake over a relay has succeeded: from now on the bytes of its
    /// session are messages.
    pub fn relay_handshake_done(&mut self, session_id: &String)
        requires
            old(self)@.wf(),
        ensures
            final(self)@.wf(),
            final(self)@ == (ManagerView {
                relay_waiters: old(self)@.relay_waiters.remove(session_id@),
                ..old(self)@
            }),
    {
        let _ = self.relay_handshake_waiters.remove(session_id);
    }

    /// Whether a peer can be sought over the internet at all.
    pub fn require_signaling(&self) -> (r: Result<()>)
        ensures
            match r {
                Ok(_) => self@.signaling,
                Err(e) => {
                    &&& !self@.signaling
                    &&& e@ == ErrorView::InvalidState("signaling server not connected"@)
                },
            },
    {
        if self.signaling {
            Ok(())
        } else {
            Err(CoreError::invalid_state("signaling server not connected"))
        }
    }

    /// Offers this device's addresses to a peer under a fresh session: the
    /// public one first, then the local one, which serves two devices on one
    /// network that did not find each other.
    pub fn connect_to_peer_via_internet(
        &mut self,
        peer_device_id: &String,
        public_addr: &Ipv4Endpoint,
        local_addr: &String,
    ) -> (r: SignalingMessage)
        requires
            old(self)@.wf(),
        ensures
            final(self)@.wf(),
            r matches SignalingMessage::OfferCandidates { session_id, .. } && {
                &&& session_id@.len() == 36
                &&& final(self)@ == old(self)@.after_internet_offer(session_id, *peer_device_id)
                &&& is_internet_offer(r, session_id, *peer_device_id, public_addr@, *local_addr)
            },
    {
        self.offer_candidates_as(crypto::new_uuid(), peer_device_id, public_addr, local_addr)
    }

    /// Offers this device's addresses to a peer under a given session.
    pub fn offer_candidates_as(
        &mut self,
        session_id: String,
        peer_device_id: &String,
        public_addr: &Ipv4Endpoint,
        local_addr: &String,
    ) -> (r: SignalingMessage)
        requires
            old(self)@.wf(),
        ensures
            final(self)@.wf(),
            final(self)@ == old(self)@.after_internet_offer(session_id, *peer_device_id),
            is_internet_offer(r, session_id, *peer_device_id, public_addr@, *local_addr),
    {
        self.signaling_sessions.register(&session_id, peer_device_id);
        assert(self@ =~= old(self)@.after_internet_offer(session_id, *peer_device_id));
        let mut candidates: Vec<String> = Vec::new();
        candidates.push(public_addr.to_text());
        candidates.push(local_addr.clone());
        offer_candidates(peer_device_id, &session_id, candidates)
    }
}

impl ManagerView {
    pub open spec fn after_internet_offer(self, session_id: String, peer: String) -> ManagerView {
        ManagerView {
            signaling_sessions: self.signaling_sessions.insert(session_id@, peer),
            ..self
        }
    }
}

/// The offer of two candidates: the public address, then the local one.
pub open spec fn is_internet_offer(
    m: SignalingMessage,
    session: String,
    peer: String,
    public_addr: (Seq<u8>, u16),
    local_addr: String,
) -> bool {
    &&& m matches SignalingMessage::OfferCandidates { to_device_id, session_id, candidates }
    &&& to_device_id == peer
    &&& session_id == session
    &&& candidates@.len() == 2
    &&& candidates@[0]@ == endpoint_text(public_addr)
    &&& candidates@[1] == local_addr
}

/// The report on the candidates of a session.
pub fn candidate_result(session_id: &String, direct: bool) -> (m: SignalingMessage)
    ensures
        m == (SignalingMessage::CandidateResult {
            session_id: *session_id,
            direct_connection_likely: direct,
        }),
{
    SignalingMessage::CandidateResult {
        session_id: session_id.clone(),
        direct_connection_likely: direct,
    }
}

/// The attempt to reach a peer at one candidate address after the other.
pub struct CandidateSearch {
    pub peer_device_id: String,
    pub candidates: Vec<String>,
    pub next: usize,
}

impl CandidateSearch {
    pub open spec fn wf(self) -> bool {
        self.next <= self.candidates@.len()
    }

    pub fn new(peer_device_id: String, candidates: Vec<String>) -> (r: Self)
        ensures
            r.wf(),
            r.peer_device_id == peer_device_id,
            r.candidates == candidates,
            r.next == 0,
    {
        CandidateSearch { peer_device_id, candidates, next: 0 }
    }

    /// The candidate to try next, in the order in which they were offered;
    /// an error when all have been tried.
    pub fn next_candidate(&mut self) -> (r: Result<String>)
        requires
            old(self).wf(),
        ensures
            final(self).wf(),
            final(self).peer_device_id == old(self).peer_device_id,
            final(self).candidates == old(self).candidates,
            match r {
                Ok(c) => {
                    &&& old(self).next < old(self).candidates@.len()
                    &&& c == old(self).candidates@[old(self).next as int]
                    &&& final(self).next == old(self).next + 1
                },
                Err(e) => {
                    &&& old(self).next == old(self).candidates@.len()
                    &&& final(self).next == old(self).next
                    &&& e@ == ErrorView::InvalidState(
                        "no candidate reachable for peer "@ + old(self).peer_device_id@,
                    )
                },
            },
    {
        if self.next < self.candidates.len() {
            let c: String = self.candidates[self.next].clone();
            self.next = self.next + 1;
            Ok(c)
        } else {
            Err(
                CoreError::InvalidState(
                    concat2("no candidate reachable for peer ", self.peer_device_id.as_str()),
                ),
            )
        }
    }
}

/// Of two different devices exactly one begins the handshake on a relay, so
/// that both agree on it without a message.
pub proof fn exactly_one_side_leads(a: Seq<char>, b: Seq<char>)
    requires
        a != b,
    ensures
        leads_on_relay(a, b) <==> !leads_on_relay(b, a),
{
    encode_utf8_decode_utf8(a);
    encode_utf8_decode_utf8(b);
    bytes_before_is_total(encode_utf8(a), encode_utf8(b));
}

/// The bytes of a relay session go to its handshake from its beginning to its
/// end, and to the peer's session after it.
pub proof fn relay_bytes_follow_the_handshake(
    v: ManagerView,
    session_id: String,
    data: Vec<u8>,
)
    requires
        v.signaling_sessions.contains_key(session_id@),
        v.sessions.contains_key(v.signaling_sessions[session_id@]@),
    ensures
        ({
            let during = ManagerView {
                relay_waiters: v.relay_waiters.insert(session_id@, ()),
                ..v
            };
            let after = ManagerView {
                relay_waiters: during.relay_waiters.remove(session_id@),
                ..during
            };
            &&& during.relay_data_action(session_id, data) is FeedHandshake
            &&& after.relay_data_action(session_id, data) is Deliver
        }),
{
}

} // verus!
