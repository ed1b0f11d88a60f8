use zao_transfer_core::connection_manager::internet::{
    candidate_result, CandidateSearch, SignalingAction,
};
use zao_transfer_core::connection_manager::ConnectionManager;
use zao_transfer_core::noise_session::Role;
use zao_transfer_core::signaling::SignalingMessage;
use zao_transfer_core::signaling_client::{
    closing_event, event_from_message, read_step, register_message, send_relay_data, ReadStep, ServerFrame,
    SignalingEvent, SignalingSessionTracker,
};
use zao_transfer_core::stun_client::Ipv4Endpoint;

fn s(text: &str) -> String {
    text.to_string()
}

fn known_session(own: &str, peer: &str) -> ConnectionManager {
    let mut m = ConnectionManager::new(s(own));
    m.offer_candidates_as(
        s("s1"),
        &s(peer),
        &Ipv4Endpoint { ip: [203, 0, 113, 9], port: 4000 },
        &s("192.168.0.4:5000"),
    );
    m
}

#[test]
fn addresses_are_offered_public_first() {
    let mut m = ConnectionManager::new(s("alice"));
    let r = m.offer_candidates_as(
        s("s1"),
        &s("bob"),
        &Ipv4Endpoint { ip: [203, 0, 113, 9], port: 4000 },
        &s("192.168.0.4:5000"),
    );
    match r {
        SignalingMessage::OfferCandidates { to_device_id, session_id, candidates } => {
            assert_eq!(to_device_id, "bob");
            assert_eq!(session_id, "s1");
            assert_eq!(candidates, vec!["203.0.113.9:4000", "192.168.0.4:5000"]);
        }
        _ => panic!("no offer"),
    }
    assert_eq!(m.signaling_sessions.peer_for_session(&s("s1")), Some(s("bob")));
}

#[test]
fn a_fresh_internet_session_has_its_own_name() {
    let mut m = ConnectionManager::new(s("alice"));
    let addr = Ipv4Endpoint { ip: [1, 2, 3, 4], port: 5 };
    match m.connect_to_peer_via_internet(&s("bob"), &addr, &s("l")) {
        SignalingMessage::OfferCandidates { session_id, .. } => {
            assert_eq!(session_id.len(), 36);
            assert_eq!(m.signaling_sessions.peer_for_session(&session_id), Some(s("bob")));
        }
        _ => panic!("no offer"),
    }
}

#[test]
fn signaling_has_to_be_connected() {
    let mut m = ConnectionManager::new(s("alice"));
    assert_eq!(
        m.require_signaling().unwrap_err().into_text(),
        "signaling server not connected"
    );
    m.signaling_connected();
    assert!(m.require_signaling().is_ok());
    assert!(matches!(
        m.handle_signaling_event(SignalingEvent::Disconnected),
        SignalingAction::Nothing
    ));
    assert!(m.require_signaling().is_err());
}

#[test]
fn candidates_of_a_peer_are_tried() {
    let mut m = ConnectionManager::new(s("alice"));
    match m.handle_signaling_event(SignalingEvent::IncomingCandidates {
        from_device_id: s("bob"),
        session_id: s("s1"),
        candidates: vec![s("a"), s("b")],
    }) {
        SignalingAction::TryCandidates { peer_device_id, session_id, candidates } => {
            assert_eq!(peer_device_id, "bob");
            assert_eq!(session_id, "s1");
            let mut search = CandidateSearch::new(peer_device_id, candidates);
            assert_eq!(search.next_candidate().unwrap(), "a");
            assert_eq!(search.next_candidate().unwrap(), "b");
            assert_eq!(
                search.next_candidate().unwrap_err().into_text(),
                "no candidate reachable for peer bob"
            );
        }
        _ => panic!("not tried"),
    }
    assert!(matches!(
        candidate_result(&s("s1"), true),
        SignalingMessage::CandidateResult { direct_connection_likely: true, .. }
    ));
}

#[test]
fn a_relay_is_asked_for_only_where_it_is_needed() {
    let mut m = ConnectionManager::new(s("alice"));
    assert!(matches!(
        m.handle_signaling_event(SignalingEvent::CandidateResult {
            session_id: s("s1"),
            direct_connection_likely: true,
        }),
        SignalingAction::Nothing
    ));
    match m.handle_signaling_event(SignalingEvent::CandidateResult {
        session_id: s("s1"),
        direct_connection_likely: false,
    }) {
        SignalingAction::Reply(SignalingMessage::RequestRelay { session_id }) => {
            assert_eq!(session_id, "s1")
        }
        _ => panic!("no relay asked for"),
    }
}

#[test]
fn exactly_one_side_begins_on_the_relay() {
    let ready = SignalingEvent::RelayReady { session_id: s("s1") };
    match known_session("alice", "bob").handle_signaling_event(ready.clone()) {
        SignalingAction::StartHandshake { peer_device_id, role, .. } => {
            assert_eq!(peer_device_id, "bob");
            assert!(matches!(role, Role::Initiator));
        }
        _ => panic!("no handshake"),
    }
    match known_session("bob", "alice").handle_signaling_event(ready.clone()) {
        SignalingAction::StartHandshake { role, .. } => assert!(matches!(role, Role::Responder)),
        _ => panic!("no handshake"),
    }
    let mut connected = known_session("alice", "bob");
    connected.register_session(&s("bob"), vec![]);
    assert!(matches!(
        connected.handle_signaling_event(ready.clone()),
        SignalingAction::Nothing
    ));
    assert!(matches!(
        ConnectionManager::new(s("alice")).handle_signaling_event(ready),
        SignalingAction::UnknownSession { .. }
    ));
}

#[test]
fn relay_bytes_go_where_they_belong() {
    let data = SignalingEvent::RelayData { session_id: s("s1"), data: vec![1, 2] };
    let mut m = known_session("alice", "bob");
    assert!(matches!(
        m.handle_signaling_event(data.clone()),
        SignalingAction::NoSession { .. }
    ));
    m.relay_handshake_started(&s("s1"));
    match m.handle_signaling_event(data.clone()) {
        SignalingAction::FeedHandshake { session_id, data } => {
            assert_eq!(session_id, "s1");
            assert_eq!(data, vec![1, 2]);
        }
        _ => panic!("not for the handshake"),
    }
    m.relay_handshake_done(&s("s1"));
    m.register_session(&s("bob"), vec![]);
    match m.handle_signaling_event(data.clone()) {
        SignalingAction::Deliver { link, peer_device_id, data } => {
            assert_eq!(link, 0);
            assert_eq!(peer_device_id, "bob");
            assert_eq!(data, vec![1, 2]);
        }
        _ => panic!("not delivered"),
    }
    m.handle_signaling_event(SignalingEvent::RelayClosed { session_id: s("s1") });
    assert!(matches!(
        m.handle_signaling_event(data),
        SignalingAction::UnknownSession { .. }
    ));
}

#[test]
fn registration_answers_become_events() {
    assert!(matches!(
        event_from_message(SignalingMessage::RegisterAck { success: true, error: None }),
        Some(SignalingEvent::Registered)
    ));
    match event_from_message(SignalingMessage::RegisterAck {
        success: false,
        error: Some(s("taken")),
    }) {
        Some(SignalingEvent::RegisterFailed { error }) => assert_eq!(error, "taken"),
        _ => panic!("no event"),
    }
    match event_from_message(SignalingMessage::RegisterAck { success: false, error: None }) {
        Some(SignalingEvent::RegisterFailed { error }) => assert_eq!(error, "unknown error"),
        _ => panic!("no event"),
    }
    let mut m = ConnectionManager::new(s("alice"));
    assert!(matches!(
        m.handle_signaling_event(SignalingEvent::RegisterFailed { error: s("x") }),
        SignalingAction::RegistrationFailed { .. }
    ));
    assert!(matches!(
        m.handle_signaling_event(SignalingEvent::Registered),
        SignalingAction::Nothing
    ));
}

#[test]
fn frames_of_the_server_are_sorted() {
    assert!(matches!(read_step(ServerFrame::Text(None)), ReadStep::Skip));
    assert!(matches!(read_step(ServerFrame::Other), ReadStep::Skip));
    assert!(matches!(read_step(ServerFrame::Close), ReadStep::Stop));
    assert!(matches!(closing_event(), SignalingEvent::Disconnected));
    assert!(matches!(
        read_step(ServerFrame::Text(Some(SignalingMessage::Pong))),
        ReadStep::Skip
    ));
    assert!(matches!(
        read_step(ServerFrame::Text(Some(SignalingMessage::Register { device_id: s("x") }))),
        ReadStep::Skip
    ));
    assert!(matches!(
        read_step(ServerFrame::Text(Some(SignalingMessage::RelayReady { session_id: s("x") }))),
        ReadStep::Emit(SignalingEvent::RelayReady { .. })
    ));
}

#[test]
fn client_messages_are_as_asked() {
    match register_message(&s("me")) {
        SignalingMessage::Register { device_id } => assert_eq!(device_id, "me"),
        _ => panic!("not a registration"),
    }
    match send_relay_data(&s("s1"), vec![9]) {
        SignalingMessage::RelayData { session_id, data } => {
            assert_eq!(session_id, "s1");
            assert_eq!(data, vec![9]);
        }
        _ => panic!("not relay data"),
    }
}

#[test]
fn sessions_are_tracked() {
    let mut t = SignalingSessionTracker::default();
    t.register(&s("s1"), &s("bob"));
    t.register(&s("s2"), &s("carol"));
    t.register(&s("s1"), &s("dave"));
    assert_eq!(t.peer_for_session(&s("s1")), Some(s("dave")));
    t.remove(&s("s1"));
    assert_eq!(t.peer_for_session(&s("s1")), None);
    assert_eq!(t.peer_for_session(&s("s2")), Some(s("carol")));
}
