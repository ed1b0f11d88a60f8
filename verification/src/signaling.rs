//! The messages exchanged with a signaling server, which introduces two
//! devices that know each other's identifier but not each other's address and,
//! as a last resort, relays bytes between them.
use vstd::prelude::*;

verus! {

#[derive(Debug, Clone)]
pub enum SignalingMessage {
    /// Sent first: peers can address this device from now on.
    Register { device_id: String },
    /// The server's answer to a registration.
    RegisterAck { success: bool, error: Option<String> },
    /// Asks the server to pass candidate addresses, in order of priority, to a
    /// peer.
    OfferCandidates { to_device_id: String, session_id: String, candidates: Vec<String> },
    /// The candidates that a peer offered.
    IncomingCandidates { from_device_id: String, session_id: String, candidates: Vec<String> },
    /// Whether the candidates led to a direct connection.
    CandidateResult { session_id: String, direct_connection_likely: bool },
    /// Asks for a relay where no direct connection was possible.
    RequestRelay { session_id: String },
    RelayReady { session_id: String },
    RelayData { session_id: String, data: Vec<u8> },
    RelayClosed { session_id: String },
    Ping,
    Pong,
}

} // verus!
