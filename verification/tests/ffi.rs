use zao_transfer_core::connection_manager::{EventSink, SinkCall};
use zao_transfer_core::ffi::{
    ble_open_message, ble_seal_message, clamp_limit, clamp_size, error_json, file_message_as,
    known_device_key_hex, new_file_message, new_text_message, offer_to_accept, require_identity,
    text_message_as, transfer_report, AcceptedFolders, AppEvent, IdentityInfo, QueueSink,
};
use zao_transfer_core::identity::sealed_box::seal;
use zao_transfer_core::identity::DeviceIdentity;
use zao_transfer_core::protocol::{FileOffer, FolderFileEntry, FolderOffer, ProtocolMessage};
use zao_transfer_core::transfer::{TransferHandle, TransferState, CHUNK_SIZE};

fn s(text: &str) -> String {
    text.to_string()
}

fn hex(bytes: &[u8]) -> String {
    let mut out = String::new();
    for b in bytes {
        out.push_str(&format!("{:02x}", b));
    }
    out
}

#[test]
fn events_queue_up_in_order() {
    let mut q = QueueSink::new();
    q.on_peer_connected(&s("bob"));
    q.on_typing(&s("c"), true);
    q.record(SinkCall::Presence { from_device_id: s("bob"), online: false });
    q.record(SinkCall::TransferComplete { transfer_id: s("t") });
    q.push(AppEvent::ReadReceipt { message_id: s("m"), read_at_unix: 3 });
    let events = q.drain();
    assert_eq!(events.len(), 5);
    assert!(matches!(&events[0], AppEvent::PeerConnected { device_id } if device_id == "bob"));
    assert!(matches!(&events[1], AppEvent::Typing { is_typing: true, .. }));
    assert!(matches!(&events[2], AppEvent::Presence { device_id, online: false } if device_id == "bob"));
    assert!(matches!(&events[3], AppEvent::TransferComplete { transfer_id } if transfer_id == "t"));
    assert!(matches!(&events[4], AppEvent::ReadReceipt { read_at_unix: 3, .. }));
    assert!(q.drain().is_empty());
}

#[test]
fn every_call_leaves_its_event() {
    let mut q = QueueSink::new();
    let offer = FileOffer {
        transfer_id: s("t"),
        message_id: s("m"),
        conversation_id: s("c"),
        file_name: s("f"),
        file_size: 9,
        mime_type: s("x"),
        total_chunks: 1,
        chunk_size: 1,
        relative_path: s("p/f"),
        folder_batch_id: Some(s("batch")),
    };
    q.record(SinkCall::FileOffer { from_device_id: s("bob"), offer });
    let folder = FolderOffer {
        folder_batch_id: s("b"),
        conversation_id: s("c"),
        folder_name: s("n"),
        total_files: 1,
        total_size: 4,
        files: vec![FolderFileEntry { relative_path: s("p"), file_size: 4, mime_type: s("x") }],
    };
    q.record(SinkCall::FolderOffer { from_device_id: s("bob"), offer: folder });
    q.record(SinkCall::FileAccept { from_device_id: s("bob"), transfer_id: s("t") });
    q.record(SinkCall::FileReject {
        from_device_id: s("bob"),
        transfer_id: s("t"),
        reason: s("no"),
    });
    q.record(SinkCall::FolderAccept { from_device_id: s("bob"), folder_batch_id: s("b") });
    q.record(SinkCall::FolderReject {
        from_device_id: s("bob"),
        folder_batch_id: s("b"),
        reason: s("no"),
    });
    let progress = TransferHandle::new(s("t"), s("f"), 9).progress(TransferState::Queued);
    q.record(SinkCall::TransferProgress(progress));
    q.record(SinkCall::TransferCancelled { transfer_id: s("t"), by_device_id: s("bob") });
    q.record(SinkCall::DeliveryAck { message_id: s("m"), delivered_at_unix: 4 });
    q.record(SinkCall::PeerDisconnected { device_id: s("bob") });
    let e = q.drain();
    match &e[0] {
        AppEvent::FileOffer { file_size, file_name, relative_path, folder_batch_id, .. } => {
            assert_eq!(*file_size, 9);
            assert_eq!(file_name, "f");
            assert_eq!(relative_path, "p/f");
            assert_eq!(folder_batch_id, &Some(s("batch")));
        }
        _ => panic!("not an offer"),
    }
    match &e[1] {
        AppEvent::FolderOffer { folder_name, total_files, total_size, files, .. } => {
            assert_eq!(folder_name, "n");
            assert_eq!((*total_files, *total_size), (1, 4));
            assert_eq!(files[0].relative_path, "p");
        }
        _ => panic!("not a folder"),
    }
    assert!(matches!(&e[2], AppEvent::FileAccept { .. }));
    assert!(matches!(&e[3], AppEvent::FileReject { reason, .. } if reason == "no"));
    assert!(matches!(&e[4], AppEvent::FolderAccept { .. }));
    assert!(matches!(&e[5], AppEvent::FolderReject { reason, .. } if reason == "no"));
    assert!(matches!(&e[6], AppEvent::TransferProgress(p) if p.remaining_bytes == 9));
    assert!(matches!(&e[7], AppEvent::TransferCancelled { by_device_id, .. } if by_device_id == "bob"));
    assert!(matches!(&e[8], AppEvent::DeliveryAck { delivered_at_unix: 4, .. }));
    assert!(matches!(&e[9], AppEvent::PeerDisconnected { .. }));
}

#[test]
fn identity_is_shown_with_its_key() {
    let mut seed = [0u8; 32];
    let digits = "9d61b19deffd5a60ba844af492ec2cc44449c5697b326919703bac031cae7f60";
    for i in 0..32 {
        seed[i] = u8::from_str_radix(&digits[2 * i..2 * i + 2], 16).unwrap();
    }
    let id = DeviceIdentity::from_signing_seed(seed);
    let info = IdentityInfo::from(&id);
    assert_eq!(info.device_id, id.device_id);
    assert_eq!(
        info.public_key_hex,
        "d75a980182b10ab7d54bfed3c964073a0ee172f3daa62325af021a68f707511a"
    );
    assert!(require_identity(Some(id)).is_ok());
    match require_identity(None) {
        Err(e) => assert_eq!(e, "no identity found; call init_app first"),
        Ok(_) => panic!("expected an error"),
    }
}

#[test]
fn own_messages_are_pending() {
    let t = text_message_as(s("m1"), &s("bob"), &s("hello"), 77);
    assert_eq!(t.row.message_id, "m1");
    assert_eq!(t.row.conversation_id, "bob");
    assert_eq!(t.row.sender_device_id, "self");
    assert_eq!(t.row.body, "hello");
    assert_eq!(t.row.msg_type, "text");
    assert_eq!(t.row.sent_at_unix, 77);
    assert_eq!(t.row.status, "pending");
    match t.message {
        ProtocolMessage::Text(m) => {
            assert_eq!(m.message_id, "m1");
            assert_eq!(m.conversation_id, "bob");
            assert_eq!(m.body, "hello");
            assert_eq!(m.sent_at_unix, 77);
        }
        _ => panic!("not a text"),
    }
    let f = file_message_as(s("m2"), &s("bob"), &s("f.bin"), 78);
    assert_eq!(f.msg_type, "file");
    assert_eq!(f.body, "f.bin");
    assert_eq!(f.status, "pending");
}

#[test]
fn fresh_messages_have_fresh_names() {
    let a = new_text_message(&s("bob"), &s("x"), 1);
    let b = new_file_message(&s("bob"), &s("x"), 1);
    assert_eq!(a.row.message_id.len(), 36);
    assert_ne!(a.row.message_id, b.message_id);
}

#[test]
fn an_offer_is_put_together_again() {
    let o = offer_to_accept(&s("bob"), &s("t"), &s("m"), &s("f"), CHUNK_SIZE + 1, &s("x"));
    assert_eq!(o.conversation_id, "bob");
    assert_eq!(o.total_chunks, 2);
    assert_eq!(o.chunk_size, CHUNK_SIZE);
    assert_eq!(o.relative_path, "");
    assert_eq!(o.folder_batch_id, None);
}

#[test]
fn transfers_are_reported() {
    let r = transfer_report(&s("t"), Some((s("f"), CHUNK_SIZE * 2)), 1).ok().unwrap();
    assert_eq!(r.bytes_transferred, CHUNK_SIZE);
    assert_eq!(r.done, (CHUNK_SIZE, CHUNK_SIZE * 2));
    assert_eq!(r.file_name, "f");
    let all = transfer_report(&s("t"), Some((s("f"), 10)), 3).ok().unwrap();
    assert_eq!(all.bytes_transferred, 10);
    match transfer_report(&s("t"), None, 0) {
        Err(e) => assert_eq!(e, "transfer t not found"),
        Ok(_) => panic!("expected an error"),
    }
}

#[test]
fn device_keys_are_shown_in_hexadecimal() {
    assert_eq!(known_device_key_hex(&s("bob"), Some(vec![0, 0xab, 255])).unwrap(), "00abff");
    assert_eq!(
        known_device_key_hex(&s("bob"), None).unwrap_err(),
        "no known public key for device bob"
    );
}

#[test]
fn values_of_the_mobile_shell() {
    assert_eq!(error_json("a \"b\""), "{\"error\":\"a 'b'\"}");
    assert_eq!(clamp_limit(-5), 0);
    assert_eq!(clamp_limit(50), 50);
    assert_eq!(clamp_size(-1), 0);
    assert_eq!(clamp_size(i64::MAX), i64::MAX as u64);
}

#[test]
fn bluetooth_messages_roundtrip() {
    let bob = DeviceIdentity::generate();
    let eve = DeviceIdentity::generate();
    let sealed = ble_seal_message(&hex(&bob.noise_public()), "gr\u{fc}\u{df}e").unwrap();
    assert_eq!(sealed.len(), 2 * (60 + 7));
    assert_eq!(ble_open_message(&bob, &sealed).unwrap(), "gr\u{fc}\u{df}e");
    assert_eq!(ble_open_message(&bob, &sealed.to_uppercase()).unwrap(), "gr\u{fc}\u{df}e");
    assert_eq!(
        ble_open_message(&eve, &sealed).unwrap_err(),
        "sealed_box decrypt failed: aead::Error"
    );
}

#[test]
fn bad_bluetooth_input_is_refused() {
    let bob = DeviceIdentity::generate();
    assert_eq!(ble_seal_message("abc", "x").unwrap_err(), "Odd number of digits");
    assert_eq!(
        ble_seal_message("zz", "x").unwrap_err(),
        "Invalid character 'z' at position 0"
    );
    assert_eq!(
        ble_seal_message("abcd", "x").unwrap_err(),
        "recipient public key must be exactly 32 bytes"
    );
    assert_eq!(ble_open_message(&bob, "0").unwrap_err(), "Odd number of digits");
    assert_eq!(ble_open_message(&bob, "00").unwrap_err(), "sealed_box message too short");
    let sealed = seal(&bob.noise_public(), &[0xff, 0xfe]).unwrap();
    assert_eq!(
        ble_open_message(&bob, &hex(&sealed)).unwrap_err(),
        "invalid utf-8 sequence of 1 bytes from index 0"
    );
}

#[test]
fn files_of_an_accepted_folder_are_covered() {
    let mut folders = AcceptedFolders::new();
    let mut offer = offer_to_accept(&s("carol"), &s("t"), &s("m"), &s("f"), 1, &s("x"));
    folders.accept(&s("carol"), &s("b1"));
    assert!(!folders.covers(&s("carol"), &offer));
    offer.folder_batch_id = Some(s("b1"));
    assert!(folders.covers(&s("carol"), &offer));
    assert!(!folders.covers(&s("bob"), &offer));
    offer.folder_batch_id = Some(s("b2"));
    assert!(!folders.covers(&s("carol"), &offer));
}
