//! The client's side of signaling: which messages it sends, which events it
//! makes of what the server sends, and which session belongs to which peer.
use vstd::prelude::*;

use crate::signaling::SignalingMessage;
use crate::str_map::StrMap;

verus! {

/// What the connection manager hears of the signaling server.
#[derive(Debug, Clone)]
pub enum SignalingEvent {
    Registered,
    RegisterFailed { error: String },
    IncomingCandidates { from_device_id: String, session_id: String, candidates: Vec<String> },
    CandidateResult { session_id: String, direct_connection_likely: bool },
    RelayReady { session_id: String },
    RelayData { session_id: String, data: Vec<u8> },
    RelayClosed { session_id: String },
    Disconnected,
}

/// Whether `event` is the one that `message` gives rise to. Keepalives and the
/// messages that only clients send give rise to none.
pub open spec fn event_matches(message: SignalingMessage, event: Option<SignalingEvent>) -> bool {
    match message {
        SignalingMessage::RegisterAck { success, error } => if success {
            event == Some(SignalingEvent::Registered)
        } else {
            event matches Some(SignalingEvent::RegisterFailed { error: text }) && match error {
                Some(e) => text == e,
                None => text@ == "unknown error"@,
            }
        },
        SignalingMessage::IncomingCandidates { from_device_id, session_id, candidates } => event
            == Some(
            SignalingEvent::IncomingCandidates { from_device_id, session_id, candidates },
        ),
        SignalingMessage::CandidateResult { session_id, direct_connection_likely } => event == Some(
            SignalingEvent::CandidateResult { session_id, direct_connection_likely },
        ),
        SignalingMessage::RelayReady { session_id } => event == Some(
            SignalingEvent::RelayReady { session_id },
        ),
        SignalingMessage::RelayData { session_id, data } => event == Some(
            SignalingEvent::RelayData { session_id, data },
        ),
        SignalingMessage::RelayClosed { session_id } => event == Some(
            SignalingEvent::RelayClosed { session_id },
        ),
        SignalingMessage::Register { .. } => event is None,
        SignalingMessage::OfferCandidates { .. } => event is None,
        SignalingMessage::RequestRelay { .. } => event is None,
        SignalingMessage::Ping => event is None,
        SignalingMessage::Pong => event is None,
    }
}

/// The event that a message of the server gives rise to.
pub fn event_from_message(message: SignalingMessage) -> (event: Option<SignalingEvent>)
    ensures
        event_matches(message, event),
{
    match message {
        SignalingMessage::RegisterAck { success, error } => if success {
            Some(SignalingEvent::Registered)
        } else {
            let error: String = match error {
                Some(e) => e,
                None => "unknown error".to_string(),
            };
            Some(SignalingEvent::RegisterFailed { error })
        },
        SignalingMessage::IncomingCandidates { from_device_id, session_id, candidates } => Some(
            SignalingEvent::IncomingCandidates { from_device_id, session_id, candidates },
        ),
        SignalingMessage::CandidateResult { session_id, direct_connection_likely } => Some(
            SignalingEvent::CandidateResult { session_id, direct_connection_likely },
        ),
        SignalingMessage::RelayReady { session_id } => Some(
            SignalingEvent::RelayReady { session_id },
        ),
        SignalingMessage::RelayData { session_id, data } => Some(
            SignalingEvent::RelayData { session_id, data },
        ),
        SignalingMessage::RelayClosed { session_id } => Some(
            SignalingEvent::RelayClosed { session_id },
        ),
        _ => None,
    }
}

/// A frame of the server's stream. A text frame that is not a signaling
/// message has been decoded to nothing.
pub enum ServerFrame {
    Text(Option<SignalingMessage>),
    Close,
    Other,
}

/// What the reader of the server's stream does with a frame.
pub enum ReadStep {
    /// Hand on the event and read on.
    Emit(SignalingEvent),
    /// Read on.
    Skip,
    /// Stop reading; the connection counts as closed.
    Stop,
}

/// The reader's decision on a frame: malformed and irrelevant frames are
/// skipped, a close ends the stream, and everything else is an event.
pub fn read_step(frame: ServerFrame) -> (r: ReadStep)
    ensures
        match frame {
            ServerFrame::Text(Some(message)) => match r {
                ReadStep::Emit(event) => event_matches(message, Some(event)),
                ReadStep::Skip => event_matches(message, None),
                ReadStep::Stop => false,
            },
            ServerFrame::Text(None) => r is Skip,
            ServerFrame::Close => r is Stop,
            ServerFrame::Other => r is Skip,
        },
{
    match frame {
        ServerFrame::Text(Some(message)) => match event_from_message(message) {
            Some(event) => ReadStep::Emit(event),
            None => ReadStep::Skip,
        },
        ServerFrame::Text(None) => ReadStep::Skip,
        ServerFrame::Close => ReadStep::Stop,
        ServerFrame::Other => ReadStep::Skip,
    }
}

/// The last event of a connection, after the server's stream has ended, in
/// whatever way.
pub fn closing_event() -> (event: SignalingEvent)
    ensures
        event is Disconnected,
{
    SignalingEvent::Disconnected
}

/// The registration that opens a connection.
pub fn register_message(device_id: &String) -> (m: SignalingMessage)
    ensures
        m == (SignalingMessage::Register { device_id: *device_id }),
{
    SignalingMessage::Register { device_id: device_id.clone() }
}

pub fn offer_candidates(
    to_device_id: &String,
    session_id: &String,
    candidates: Vec<String>,
) -> (m: SignalingMessage)
    ensures
        m == (SignalingMessage::OfferCandidates {
            to_device_id: *to_device_id,
            session_id: *session_id,
            candidates,
        }),
{
    SignalingMessage::OfferCandidates {
        to_device_id: to_device_id.clone(),
        session_id: session_id.clone(),
        candidates,
    }
}

pub fn request_relay(session_id: &String) -> (m: SignalingMessage)
    ensures
        m == (SignalingMessage::RequestRelay { session_id: *session_id }),
{
    SignalingMessage::RequestRelay { session_id: session_id.clone() }
}

pub fn send_relay_data(session_id: &String, data: Vec<u8>) -> (m: SignalingMessage)
    ensures
        m == (SignalingMessage::RelayData { session_id: *session_id, data }),
{
    SignalingMessage::RelayData { session_id: session_id.clone(), data }
}

/// The signaling sessions in flight: which peer each belongs to.
pub struct SignalingSessionTracker {
    pub sessions: StrMap<String>,
}

impl View for SignalingSessionTracker {
    type V = Map<Seq<char>, String>;

    open spec fn view(&self) -> Map<Seq<char>, String> {
        self.sessions@
    }
}

impl SignalingSessionTracker {
    pub fn new() -> (r: Self)
        ensures
            r@ == Map::<Seq<char>, String>::empty(),
    {
        SignalingSessionTracker { sessions: StrMap::new() }
    }

    pub fn register(&mut self, session_id: &String, peer_device_id: &String)
        ensures
            final(self)@ == old(self)@.insert(session_id@, *peer_device_id),
    {
        self.sessions.insert(session_id.clone(), peer_device_id.clone());
    }

    pub fn peer_for_session(&self, session_id: &String) -> (r: Option<String>)
        ensures
            r == (if self@.contains_key(session_id@) {
                Some(self@[session_id@])
            } else {
                None
            }),
    {
        match self.sessions.get(session_id) {
            Some(peer) => Some(peer.clone()),
            None => None,
        }
    }

    pub fn remove(&mut self, session_id: &String)
        ensures
            final(self)@ == old(self)@.remove(session_id@),
    {
        let _ = self.sessions.remove(session_id);
    }
}

impl Default for SignalingSessionTracker {
    fn default() -> (r: Self)
        ensures
            r@ == Map::<Seq<char>, String>::empty(),
    {
        SignalingSessionTracker::new()
    }
}

} // verus!
