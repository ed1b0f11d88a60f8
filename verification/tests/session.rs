use zao_transfer_core::error::CoreError;
use zao_transfer_core::handshake::{Handshake, HandshakeRoute};
use zao_transfer_core::identity::DeviceIdentity;
use zao_transfer_core::message_parts::{MAX_MESSAGE, PART_SIZE};
use zao_transfer_core::noise_session::{NoiseSession, Role};
use zao_transfer_core::peer_session::{
    ForwardStep, Outbound, PeerSession, Received, StreamChoice,
};
use zao_transfer_core::signaling::SignalingMessage;
use zao_transfer_core::transfer::CHUNK_SIZE;

fn error_text(e: CoreError) -> String {
    e.into_text()
}

fn connected_pair() -> (NoiseSession, NoiseSession) {
    let alice_id = DeviceIdentity::generate();
    let bob_id = DeviceIdentity::generate();
    let mut alice = NoiseSession::new(&alice_id, Role::Initiator).unwrap();
    let mut bob = NoiseSession::new(&bob_id, Role::Responder).unwrap();
    let msg1 = alice.write_handshake_message(&[]).unwrap();
    bob.read_handshake_message(&msg1).unwrap();
    let msg2 = bob.write_handshake_message(&[]).unwrap();
    alice.read_handshake_message(&msg2).unwrap();
    let msg3 = alice.write_handshake_message(&[]).unwrap();
    bob.read_handshake_message(&msg3).unwrap();
    (alice.into_transport_mode().unwrap(), bob.into_transport_mode().unwrap())
}

/// The parts of a message on a direct connection.
fn parts(out: Outbound) -> Vec<Vec<u8>> {
    match out {
        Outbound::Control(parts) => parts,
        Outbound::Relay(_) => panic!("not a relay"),
    }
}

/// What the receiver makes of the parts of one message.
fn taken_in(receiver: &mut PeerSession, parts: &Vec<Vec<u8>>) -> Vec<u8> {
    for p in &parts[..parts.len() - 1] {
        assert!(matches!(receiver.receive(p), Received::More));
    }
    match receiver.receive(&parts[parts.len() - 1]) {
        Received::Message(m) => m,
        _ => panic!("no message"),
    }
}

fn direct_pair() -> (PeerSession, PeerSession) {
    let (alice, bob) = connected_pair();
    (
        PeerSession::new_direct("bob".to_string(), alice),
        PeerSession::new_direct("alice".to_string(), bob),
    )
}

#[test]
fn full_handshake_and_encrypted_roundtrip() {
    let alice_id = DeviceIdentity::generate();
    let bob_id = DeviceIdentity::generate();

    let mut alice = NoiseSession::new(&alice_id, Role::Initiator).unwrap();
    let mut bob = NoiseSession::new(&bob_id, Role::Responder).unwrap();

    // -> e
    let msg1 = alice.write_handshake_message(&[]).unwrap();
    bob.read_handshake_message(&msg1).unwrap();

    // <- e, ee, s, es
    let msg2 = bob.write_handshake_message(&[]).unwrap();
    alice.read_handshake_message(&msg2).unwrap();

    // -> s, se
    let msg3 = alice.write_handshake_message(&[]).unwrap();
    bob.read_handshake_message(&msg3).unwrap();

    assert!(alice.is_handshake_finished());
    assert!(bob.is_handshake_finished());

    let mut alice_t = alice.into_transport_mode().unwrap();
    let mut bob_t = bob.into_transport_mode().unwrap();

    let plaintext = b"hello from alice";
    let ciphertext = alice_t.encrypt(plaintext).unwrap();
    let decrypted = bob_t.decrypt(&ciphertext).unwrap();
    assert_eq!(plaintext.to_vec(), decrypted);
}

#[test]
fn handshake_messages_have_the_stated_lengths() {
    let alice_id = DeviceIdentity::generate();
    let bob_id = DeviceIdentity::generate();
    let mut alice = NoiseSession::new(&alice_id, Role::Initiator).unwrap();
    let mut bob = NoiseSession::new(&bob_id, Role::Responder).unwrap();

    let msg1 = alice.write_handshake_message(b"abc").unwrap();
    assert_eq!(msg1.len(), 35);
    assert_eq!(msg1[32..].to_vec(), b"abc".to_vec());
    assert_eq!(bob.read_handshake_message(&msg1).unwrap(), b"abc");
    assert!(bob.peer_static_key().is_none());

    let msg2 = bob.write_handshake_message(b"de").unwrap();
    assert_eq!(msg2.len(), 98);
    assert_eq!(alice.read_handshake_message(&msg2).unwrap(), b"de");
    assert_eq!(alice.peer_static_key().unwrap(), bob_id.noise_public().to_vec());

    let msg3 = alice.write_handshake_message(b"").unwrap();
    assert_eq!(msg3.len(), 64);
    assert!(!bob.is_handshake_finished());
    assert_eq!(bob.read_handshake_message(&msg3).unwrap(), b"");
    assert_eq!(bob.peer_static_key().unwrap(), alice_id.noise_public().to_vec());
}

#[test]
fn handshake_out_of_turn_is_refused() {
    let id = DeviceIdentity::generate();
    let mut alice = NoiseSession::new(&id, Role::Initiator).unwrap();
    assert_eq!(
        error_text(alice.read_handshake_message(&[0u8; 96]).unwrap_err()),
        "state error: NotTurnToRead"
    );
    let mut bob = NoiseSession::new(&id, Role::Responder).unwrap();
    assert_eq!(
        error_text(bob.write_handshake_message(&[]).unwrap_err()),
        "state error: NotTurnToWrite"
    );
    assert_eq!(error_text(bob.read_handshake_message(&[0u8; 31]).unwrap_err()), "input error");
    assert_eq!(error_text(bob.read_handshake_message(&vec![0u8; 70000]).unwrap_err()), "input error");
    assert_eq!(error_text(bob.read_handshake_message(&vec![0u8; 4129]).unwrap_err()), "decrypt error");
    assert_eq!(bob.read_handshake_message(&vec![0u8; 4128]).unwrap().len(), 4096);
}

#[test]
fn oversized_handshake_payload_is_refused() {
    let id = DeviceIdentity::generate();
    let mut alice = NoiseSession::new(&id, Role::Initiator).unwrap();
    assert_eq!(
        error_text(alice.write_handshake_message(&vec![0u8; 4049]).unwrap_err()),
        "input error"
    );
    assert_eq!(alice.write_handshake_message(&vec![0u8; 4048]).unwrap().len(), 4080);
}

#[test]
fn unfinished_handshake_is_no_transport() {
    let id = DeviceIdentity::generate();
    let mut alice = NoiseSession::new(&id, Role::Initiator).unwrap();
    assert_eq!(error_text(alice.encrypt(b"x").unwrap_err()), "not in transport mode");
    assert_eq!(error_text(alice.decrypt(b"x").unwrap_err()), "not in transport mode");
    match alice.into_transport_mode() {
        Err(CoreError::Crypto(text)) => assert_eq!(text, "state error: HandshakeNotFinished"),
        _ => panic!("expected an error"),
    }
}

#[test]
fn transport_takes_no_handshake_messages() {
    let (mut alice, bob) = connected_pair();
    assert_eq!(
        error_text(alice.write_handshake_message(&[]).unwrap_err()),
        "handshake already complete"
    );
    assert_eq!(
        error_text(alice.read_handshake_message(&[]).unwrap_err()),
        "handshake already complete"
    );
    assert!(alice.is_handshake_finished());
    assert!(bob.into_transport_mode().unwrap().peer_static_key().is_some());
}

#[test]
fn transport_bounds_and_order() {
    let (mut alice, mut bob) = connected_pair();
    assert_eq!(error_text(alice.encrypt(&vec![0u8; 65520]).unwrap_err()), "input error");
    let big = alice.encrypt(&vec![7u8; 65519]).unwrap();
    assert_eq!(big.len(), 65535);
    assert_eq!(bob.decrypt(&big).unwrap(), vec![7u8; 65519]);
    assert_eq!(error_text(bob.decrypt(&vec![0u8; 65536]).unwrap_err()), "input error");
    assert_eq!(error_text(bob.decrypt(&[0u8; 15]).unwrap_err()), "decrypt error");

    let first = alice.encrypt(b"first").unwrap();
    let second = alice.encrypt(b"second").unwrap();
    assert_ne!(first, second);
    assert!(bob.decrypt(&second).is_err());
    assert_eq!(bob.decrypt(&first).unwrap(), b"first");
    assert_eq!(bob.decrypt(&second).unwrap(), b"second");
    assert!(bob.decrypt(&second).is_err());
}

#[test]
fn handshake_driver_authenticates_both_sides() {
    let alice_id = DeviceIdentity::generate();
    let bob_id = DeviceIdentity::generate();
    let (mut alice, first) = Handshake::begin(&alice_id, Role::Initiator).unwrap();
    let (mut bob, none) = Handshake::begin(&bob_id, Role::Responder).unwrap();
    assert!(none.is_none());
    let second = bob.receive(&first.unwrap()).unwrap().unwrap();
    let third = alice.receive(&second).unwrap().unwrap();
    assert!(bob.receive(&third).unwrap().is_none());

    let a = alice.finish(HandshakeRoute::Direct, Some(&bob_id.device_id)).unwrap();
    let b = bob.finish(HandshakeRoute::Direct, None).unwrap();
    assert_eq!(a.device_id, bob_id.device_id);
    assert_eq!(b.device_id, alice_id.device_id);
    assert_eq!(a.peer_static_key, bob_id.noise_public().to_vec());

    let mut a = PeerSession::new_direct(a.device_id, a.noise);
    let mut b = PeerSession::new_direct(b.device_id, b.noise);
    let ping = parts(a.send_message(b"ping").unwrap());
    assert_eq!(ping.len(), 1);
    assert_eq!(taken_in(&mut b, &ping), b"ping");
    assert!(matches!(b.receive(b"garbage that is long enough"), Received::Stop));
}

#[test]
fn wrong_peer_is_refused_after_the_handshake() {
    let alice_id = DeviceIdentity::from_signing_seed([1u8; 32]);
    let bob_id = DeviceIdentity::from_signing_seed([2u8; 32]);
    for route in vec![HandshakeRoute::Direct, HandshakeRoute::Relay] {
        let (mut alice, first) = Handshake::begin(&alice_id, Role::Initiator).unwrap();
        let (mut bob, _) = Handshake::begin(&bob_id, Role::Responder).unwrap();
        let second = bob.receive(&first.unwrap()).unwrap().unwrap();
        let _third = alice.receive(&second).unwrap().unwrap();
        let expected = "somebody else".to_string();
        match alice.finish(route, Some(&expected)) {
            Err(CoreError::InvalidState(text)) => {
                let start = if route == HandshakeRoute::Direct { "peer" } else { "relay peer" };
                assert_eq!(
                    text,
                    format!(
                        "{} identity mismatch: expected somebody else, got {}",
                        start, bob_id.device_id
                    )
                );
            }
            _ => panic!("expected an error"),
        }
    }
}

#[test]
fn tampered_handshake_is_refused() {
    let (mut alice, first) =
        Handshake::begin(&DeviceIdentity::generate(), Role::Initiator).unwrap();
    let (mut bob, _) = Handshake::begin(&DeviceIdentity::generate(), Role::Responder).unwrap();
    let mut second = bob.receive(&first.unwrap()).unwrap().unwrap();
    assert_eq!(second.len(), 96);
    second[40] ^= 1;
    assert_eq!(error_text(alice.receive(&second).unwrap_err()), "decrypt error");
}

#[test]
fn relayed_session_wraps_its_messages() {
    let (alice, bob) = connected_pair();
    let mut a = PeerSession::new_relayed("bob".to_string(), alice, "s1".to_string());
    let mut b = PeerSession::new_relayed("alice".to_string(), bob, "s1".to_string());
    assert!(!a.is_direct());
    assert_eq!(a.transfer_stream(&"t".to_string()), StreamChoice::Relay);
    match a.send_message(b"over the relay").unwrap() {
        Outbound::Relay(messages) => match &messages[..] {
            [SignalingMessage::RelayData { session_id, data }] => {
                assert_eq!(session_id, "s1");
                assert_eq!(taken_in(&mut b, &vec![data.clone()]), b"over the relay");
            }
            _ => panic!("not one message"),
        },
        _ => panic!("not over the relay"),
    }
    match a.send_message(&vec![5u8; PART_SIZE + 1]).unwrap() {
        Outbound::Relay(messages) => {
            assert_eq!(messages.len(), 3);
            let mut data = Vec::new();
            for m in messages {
                match m {
                    SignalingMessage::RelayData { session_id, data: d } => {
                        assert_eq!(session_id, "s1");
                        data.push(d);
                    }
                    _ => panic!("not relayed"),
                }
            }
            assert_eq!(taken_in(&mut b, &data), vec![5u8; PART_SIZE + 1]);
        }
        _ => panic!("not over the relay"),
    }
}

#[test]
fn transfer_streams_are_opened_once() {
    let (alice, _) = connected_pair();
    let mut a = PeerSession::new_direct("bob".to_string(), alice);
    let t = "t".to_string();
    assert!(a.is_direct());
    assert_eq!(a.transfer_stream(&t), StreamChoice::Open);
    a.stream_opened(t.clone());
    assert_eq!(a.transfer_stream(&t), StreamChoice::Existing);
    assert_eq!(a.transfer_stream(&"u".to_string()), StreamChoice::Open);
    a.close_transfer_stream(&t);
    assert_eq!(a.transfer_stream(&t), StreamChoice::Open);
}

#[test]
fn stream_writer_skips_and_stops() {
    let (mut a, mut b) = direct_pair();
    assert!(matches!(a.forward(None), ForwardStep::Skip));
    match a.forward(Some(b"x")) {
        ForwardStep::Write(out) => assert_eq!(taken_in(&mut b, &parts(out)), b"x"),
        _ => panic!("not written"),
    }
    assert!(matches!(a.forward(Some(&vec![0u8; MAX_MESSAGE + 1])), ForwardStep::Stop));
    match a.forward(Some(b"y")) {
        ForwardStep::Write(out) => assert_eq!(taken_in(&mut b, &parts(out)), b"y"),
        _ => panic!("not written"),
    }
}

#[test]
fn a_full_chunk_is_sent_and_received() {
    let (mut a, mut b) = direct_pair();
    let mut chunk = vec![0u8; CHUNK_SIZE as usize];
    for i in 0..chunk.len() {
        chunk[i] = (i % 251) as u8;
    }
    match a.forward(Some(&chunk)) {
        ForwardStep::Write(out) => {
            let p = parts(out);
            assert_eq!(p.len(), 130);
            assert_eq!(p[0].len(), 16);
            assert_eq!(p[1].len(), 65535);
            assert_eq!(p[129].len(), CHUNK_SIZE as usize - 128 * PART_SIZE + 16);
            assert!(taken_in(&mut b, &p) == chunk);
        }
        _ => panic!("not written"),
    }
    let next = parts(a.send_message(b"after it").unwrap());
    assert_eq!(taken_in(&mut b, &next), b"after it");
}

#[test]
fn parts_end_with_a_short_one() {
    let (mut a, mut b) = direct_pair();
    for len in [0, PART_SIZE + 1, 2 * PART_SIZE - 1, 2 * PART_SIZE] {
        let message = vec![9u8; len];
        let p = parts(a.send_message(&message).unwrap());
        assert_eq!(p.len(), len / PART_SIZE + 2);
        assert_eq!(p[0].len(), 16);
        assert_eq!(p[p.len() - 1].len(), len % PART_SIZE + 16);
        assert_eq!(taken_in(&mut b, &p), message);
    }
}

#[test]
fn a_message_that_fits_is_sent_as_it_is() {
    let (alice, mut bob) = connected_pair();
    let mut a = PeerSession::new_direct("bob".to_string(), alice);
    for len in [1, 100, PART_SIZE - 1, PART_SIZE] {
        let message = vec![9u8; len];
        let p = parts(a.send_message(&message).unwrap());
        assert_eq!(p.len(), 1);
        assert_eq!(bob.decrypt(&p[0]).unwrap(), message);
    }
}

#[test]
fn parts_out_of_order_are_refused() {
    let (mut a, mut b) = direct_pair();
    let p = parts(a.send_message(&vec![1u8; PART_SIZE + 5]).unwrap());
    // A part before its turn is refused, and is taken when its turn has come.
    assert!(matches!(b.receive(&p[1]), Received::Stop));
    assert_eq!(taken_in(&mut b, &p), vec![1u8; PART_SIZE + 5]);
    assert!(matches!(b.receive(&p[1]), Received::Stop));
}

#[test]
fn an_overlong_message_is_refused() {
    let (mut a, mut b) = direct_pair();
    match a.send_message(&vec![0u8; MAX_MESSAGE + 1]) {
        Err(CoreError::InvalidState(text)) => {
            assert_eq!(text, "message length 33558529 exceeds max 33558528")
        }
        _ => panic!("expected an error"),
    }
    let mut session = NoiseSession::new(&DeviceIdentity::generate(), Role::Initiator).unwrap();
    assert_eq!(error_text(session.encrypt_message(b"x").unwrap_err()), "not in transport mode");
    // A peer that never ends its message is not listened to for ever.
    let full = vec![0u8; PART_SIZE];
    let opening = a.noise.encrypt(&[]).unwrap();
    assert!(matches!(b.receive(&opening), Received::More));
    for _ in 0..512 {
        let c = a.noise.encrypt(&full).unwrap();
        assert!(matches!(b.receive(&c), Received::More));
    }
    let c = a.noise.encrypt(&full).unwrap();
    assert!(matches!(b.receive(&c), Received::Stop));
}

#[test]
fn a_refused_message_does_not_end_the_handshake() {
    let alice_id = DeviceIdentity::generate();
    let bob_id = DeviceIdentity::generate();
    let (mut alice, first) = Handshake::begin(&alice_id, Role::Initiator).unwrap();
    let (mut bob, _) = Handshake::begin(&bob_id, Role::Responder).unwrap();
    assert_eq!(error_text(bob.receive(&[1, 2, 3]).unwrap_err()), "input error");
    let second = bob.receive(&first.unwrap()).unwrap().unwrap();
    let third = alice.receive(&second).unwrap().unwrap();
    assert!(bob.receive(&third).unwrap().is_none());
    let a = alice.finish(HandshakeRoute::Relay, Some(&bob_id.device_id)).unwrap();
    let b = bob.finish(HandshakeRoute::Relay, Some(&alice_id.device_id)).unwrap();
    let mut a = PeerSession::new_direct(a.device_id, a.noise);
    let mut b = PeerSession::new_direct(b.device_id, b.noise);
    let pong = parts(b.send_message(b"pong").unwrap());
    assert_eq!(taken_in(&mut a, &pong), b"pong");
}
