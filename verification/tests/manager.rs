use std::collections::HashSet;
use zao_transfer_core::connection_manager::folder_send::FolderSend;
use zao_transfer_core::connection_manager::incoming::{
    destination_setup, ChunkStep, Direction, Setup,
};
use zao_transfer_core::connection_manager::outgoing::{
    chunk_message, FileDetails, OfferedFile, ResumableTransfer, ResumeDecision,
};
use zao_transfer_core::connection_manager::{Action, ConnectionManager, Dispatched, SinkCall};
use zao_transfer_core::error::CoreError;
use zao_transfer_core::protocol::{
    FileChunkMessage, FileOffer, FolderOffer, ProtocolMessage, TextMessage,
};
use zao_transfer_core::transfer::{FileSource, SendStep, TransferState, CHUNK_SIZE};

fn s(text: &str) -> String {
    text.to_string()
}

/// A manager with the peers `bob` and `carol`.
fn connected() -> ConnectionManager {
    let mut m = ConnectionManager::new(s("alice"));
    assert_eq!(m.register_session(&s("bob"), vec![1, 2]).link, 0);
    assert_eq!(m.register_session(&s("carol"), vec![3]).link, 1);
    m
}

fn details(size: u64) -> FileDetails {
    FileDetails {
        source: FileSource::Path(s("/home/a/f.bin")),
        file_name: s("f.bin"),
        file_size: size,
        mime_type: s("text/plain"),
        message_id: s("m1"),
        conversation_id: s("bob"),
        relative_path: s("x/f.bin"),
        folder_batch_id: Some(s("batch")),
    }
}

fn offer(size: u64) -> FileOffer {
    FileOffer {
        transfer_id: s("t1"),
        message_id: s("m1"),
        conversation_id: s("bob"),
        file_name: s("f.bin"),
        file_size: size,
        mime_type: s("text/plain"),
        total_chunks: 99,
        chunk_size: 5,
        relative_path: s(""),
        folder_batch_id: None,
    }
}

fn dispatch(m: &mut ConnectionManager, from: &str, message: ProtocolMessage) -> Vec<Action> {
    match m.dispatch_incoming(&s(from), message) {
        Dispatched::Actions(actions) => actions,
        Dispatched::Chunk(_) => panic!("a chunk"),
    }
}

/// A short description of actions, to compare them by.
fn told(actions: &Vec<Action>) -> Vec<String> {
    let mut out = Vec::new();
    for a in actions {
        out.push(match a {
            Action::Notify(SinkCall::TextMessage { from_device_id, message }) => {
                format!("text {} {}", from_device_id, message.body)
            }
            Action::Notify(SinkCall::FileOffer { from_device_id, offer }) => {
                format!("offer {} {}", from_device_id, offer.transfer_id)
            }
            Action::Notify(SinkCall::FileAccept { from_device_id, transfer_id }) => {
                format!("accept {} {}", from_device_id, transfer_id)
            }
            Action::Notify(SinkCall::FileReject { from_device_id, transfer_id, reason }) => {
                format!("reject {} {} {}", from_device_id, transfer_id, reason)
            }
            Action::Notify(SinkCall::FolderOffer { from_device_id, offer }) => {
                format!("folder {} {}", from_device_id, offer.folder_batch_id)
            }
            Action::Notify(SinkCall::FolderAccept { from_device_id, folder_batch_id }) => {
                format!("folder accept {} {}", from_device_id, folder_batch_id)
            }
            Action::Notify(SinkCall::FolderReject { from_device_id, folder_batch_id, reason }) => {
                format!("folder reject {} {} {}", from_device_id, folder_batch_id, reason)
            }
            Action::Notify(SinkCall::TransferProgress(p)) => {
                format!("progress {} {} {}", p.transfer_id, p.bytes_transferred, p.state.as_str())
            }
            Action::Notify(SinkCall::TransferComplete { transfer_id }) => {
                format!("complete {}", transfer_id)
            }
            Action::Notify(SinkCall::TransferCancelled { transfer_id, by_device_id }) => {
                format!("cancelled {} {}", transfer_id, by_device_id)
            }
            Action::Notify(SinkCall::Typing { conversation_id, is_typing }) => {
                format!("typing {} {}", conversation_id, is_typing)
            }
            Action::Notify(SinkCall::ReadReceipt { message_id, read_at_unix }) => {
                format!("read {} {}", message_id, read_at_unix)
            }
            Action::Notify(SinkCall::DeliveryAck { message_id, delivered_at_unix }) => {
                format!("delivered {} {}", message_id, delivered_at_unix)
            }
            Action::Notify(SinkCall::Presence { from_device_id, online }) => {
                format!("presence {} {}", from_device_id, online)
            }
            Action::Notify(SinkCall::PeerConnected { device_id }) => format!("up {}", device_id),
            Action::Notify(SinkCall::PeerDisconnected { device_id }) => {
                format!("down {}", device_id)
            }
            Action::Send { link, message } => format!("send {} {:?}", link, message),
            Action::ResolveOffer { handle, accepted } => {
                format!("resolve {} {}", handle, accepted)
            }
            Action::ResolveFolder { folder_batch_id, accepted } => {
                format!("resolve folder {} {}", folder_batch_id, accepted)
            }
            Action::StoreChunkAck { transfer_id, chunk_index } => {
                format!("store chunk {} {}", transfer_id, chunk_index)
            }
            Action::StoreTransferState { transfer_id, state, bytes_transferred } => {
                format!("store state {} {} {}", transfer_id, state.as_str(), bytes_transferred)
            }
            Action::StorePeerKey { device_id, public_key } => {
                format!("store key {} {:?}", device_id, public_key)
            }
            Action::ResumeTransfers { device_id } => format!("resume {}", device_id),
        });
    }
    out
}

fn told_one(a: Result<Action, CoreError>) -> String {
    match a {
        Ok(a) => told(&vec![a]).remove(0),
        Err(e) => e.into_text(),
    }
}

fn offered(m: &mut ConnectionManager, size: u64) -> OfferedFile {
    m.send_file_as(s("t1"), &s("bob"), details(size))
}

fn chunk(index: u64, payload: &[u8]) -> FileChunkMessage {
    match chunk_message(&s("t1"), index, payload.to_vec()) {
        ProtocolMessage::FileChunk(c) => c,
        _ => panic!("not a chunk"),
    }
}

#[test]
fn a_new_session_is_announced() {
    let mut m = ConnectionManager::new(s("alice"));
    assert!(!m.is_connected(&s("bob")));
    let r = m.register_session(&s("bob"), vec![7, 8]);
    assert_eq!(told(&r.actions), vec!["store key bob [7, 8]", "up bob", "resume bob"]);
    assert!(m.is_connected(&s("bob")));
    let again = m.register_session(&s("bob"), vec![7, 8]);
    assert_eq!(again.link, 1);
    assert_eq!(m.connected_device_ids(), vec!["bob"]);
    assert_eq!(told_one(m.send_to(&s("bob"), ProtocolMessage::Ping)), "send 1 Ping");
}

#[test]
fn a_closed_session_is_forgotten() {
    let mut m = connected();
    let mut ids = m.connected_device_ids();
    ids.sort();
    assert_eq!(ids, vec!["bob", "carol"]);
    assert_eq!(told(&m.session_closed(&s("bob"), 0)), vec!["down bob"]);
    assert!(!m.is_connected(&s("bob")));
    assert!(m.is_connected(&s("carol")));
    match m.send_to(&s("bob"), ProtocolMessage::Ping) {
        Err(CoreError::NotFound(text)) => assert_eq!(text, "no active session with bob"),
        _ => panic!("expected an error"),
    }
}

#[test]
fn the_end_of_a_replaced_session_leaves_its_successor() {
    let mut m = connected();
    assert_eq!(m.register_session(&s("bob"), vec![1, 2]).link, 2);
    assert!(m.session_closed(&s("bob"), 0).is_empty());
    assert!(m.is_connected(&s("bob")));
    assert_eq!(told(&m.session_closed(&s("bob"), 2)), vec!["down bob"]);
    assert!(!m.is_connected(&s("bob")));
    assert!(m.session_closed(&s("bob"), 2).is_empty());
}

#[test]
fn messages_reach_the_sink() {
    let mut m = connected();
    let text = TextMessage {
        message_id: s("m"),
        conversation_id: s("c"),
        body: s("hi"),
        sent_at_unix: 5,
    };
    assert_eq!(told(&dispatch(&mut m, "bob", ProtocolMessage::Text(text))), vec!["text bob hi"]);
    assert_eq!(
        told(&dispatch(&mut m, "bob", ProtocolMessage::FileOffer(offer(1)))),
        vec!["offer bob t1"]
    );
    let folder = FolderOffer {
        folder_batch_id: s("b1"),
        conversation_id: s("c"),
        folder_name: s("n"),
        total_files: 0,
        total_size: 0,
        files: vec![],
    };
    assert_eq!(
        told(&dispatch(&mut m, "bob", ProtocolMessage::FolderOffer(folder))),
        vec!["folder bob b1"]
    );
    assert_eq!(
        told(&dispatch(
            &mut m,
            "bob",
            ProtocolMessage::TypingIndicator { conversation_id: s("c"), is_typing: true }
        )),
        vec!["typing c true"]
    );
    assert_eq!(
        told(&dispatch(
            &mut m,
            "bob",
            ProtocolMessage::ReadReceipt { message_id: s("m"), read_at_unix: 7 }
        )),
        vec!["read m 7"]
    );
    assert_eq!(
        told(&dispatch(
            &mut m,
            "bob",
            ProtocolMessage::DeliveryAck { message_id: s("m"), delivered_at_unix: 8 }
        )),
        vec!["delivered m 8"]
    );
    assert_eq!(
        told(&dispatch(
            &mut m,
            "bob",
            ProtocolMessage::Presence { online: false, unix_time: 9 }
        )),
        vec!["presence bob false"]
    );
    assert!(dispatch(
        &mut m,
        "bob",
        ProtocolMessage::FileChunkAck { transfer_id: s("t1"), chunk_index: 0 }
    )
    .is_empty());
    assert!(dispatch(&mut m, "bob", ProtocolMessage::Pong).is_empty());
}

#[test]
fn a_ping_is_answered_to_a_connected_peer() {
    let mut m = connected();
    assert_eq!(told(&dispatch(&mut m, "carol", ProtocolMessage::Ping)), vec!["send 1 Pong"]);
    assert!(dispatch(&mut m, "dave", ProtocolMessage::Ping).is_empty());
}

#[test]
fn an_offer_is_listed_and_sent() {
    let mut m = connected();
    let o = offered(&mut m, CHUNK_SIZE + 1);
    assert_eq!(o.transfer_id, "t1");
    assert_eq!(o.handle, 2);
    assert_eq!(o.record.local_path, "/home/a/f.bin");
    assert_eq!(o.record.total_chunks, 2);
    assert_eq!(o.record.chunk_size, CHUNK_SIZE);
    assert_eq!(o.record.direction, Direction::Send);
    assert_eq!(o.record.direction.as_str(), "send");
    match o.offer {
        Ok(Action::Send { link, message: ProtocolMessage::FileOffer(f) }) => {
            assert_eq!(link, 0);
            assert_eq!(f.transfer_id, "t1");
            assert_eq!(f.total_chunks, 2);
            assert_eq!(f.chunk_size, CHUNK_SIZE);
            assert_eq!(f.relative_path, "x/f.bin");
            assert_eq!(f.folder_batch_id, Some(s("batch")));
        }
        _ => panic!("no offer"),
    }
    assert!(m.outgoing_transfers.contains_key(&s("t1")));
}

#[test]
fn fresh_offers_have_fresh_names() {
    let mut m = connected();
    let a = m.send_file(&s("bob"), details(1));
    let b = m.send_file(&s("bob"), details(1));
    assert_eq!(a.transfer_id.len(), 36);
    assert_ne!(a.transfer_id, b.transfer_id);
    assert_ne!(a.handle, b.handle);
}

#[test]
fn an_offer_without_a_session_stays_listed() {
    let mut m = ConnectionManager::new(s("alice"));
    let o = offered(&mut m, 1);
    assert_eq!(told_one(o.offer), "no active session with bob");
    assert!(m.outgoing_transfers.contains_key(&s("t1")));
}

#[test]
fn an_acceptance_is_passed_on_once() {
    let mut m = connected();
    offered(&mut m, 1);
    let accept = ProtocolMessage::FileAccept { transfer_id: s("t1") };
    assert_eq!(
        told(&dispatch(&mut m, "bob", accept.clone())),
        vec!["resolve 2 true", "accept bob t1"]
    );
    assert_eq!(told(&dispatch(&mut m, "bob", accept)), vec!["accept bob t1"]);
}

#[test]
fn a_rejected_offer_is_unlisted() {
    let mut m = connected();
    offered(&mut m, 1);
    let reject = ProtocolMessage::FileReject { transfer_id: s("t1"), reason: s("no") };
    assert_eq!(
        told(&dispatch(&mut m, "bob", reject.clone())),
        vec!["resolve 2 false", "reject bob t1 no"]
    );
    assert!(!m.outgoing_transfers.contains_key(&s("t1")));
    assert!(m.handles.contains_key(&2));
    assert_eq!(told(&m.offer_declined(2)), vec!["store state t1 failed 0"]);
    assert!(!m.handles.contains_key(&2));
    assert!(m.offer_declined(2).is_empty());
    assert_eq!(told(&dispatch(&mut m, "bob", reject)), vec!["reject bob t1 no"]);
}

#[test]
fn an_unanswered_offer_counts_as_rejected() {
    let mut m = connected();
    offered(&mut m, 1);
    assert_eq!(
        told(&m.offer_timed_out(&s("bob"), 2)),
        vec!["store state t1 failed 0", "reject bob t1 no answer from the peer"]
    );
    assert!(!m.handles.contains_key(&2));
    assert!(!m.outgoing_transfers.contains_key(&s("t1")));
    assert!(m.offer_timed_out(&s("bob"), 2).is_empty());
}

#[test]
fn a_broken_off_transfer_is_taken_up_again() {
    let mut m = connected();
    offered(&mut m, 1);
    let t = ResumableTransfer {
        transfer_id: s("t1"),
        peer_device_id: s("bob"),
        direction: s("send"),
        local_path: s("/home/a/f.bin"),
    };
    assert_eq!(m.resume_decision(&s("bob"), &t), ResumeDecision::Running);
    m.outgoing_failed(2);
    assert!(m.handles.is_empty());
    assert_eq!(m.resume_decision(&s("bob"), &t), ResumeDecision::Resume);
}

#[test]
fn a_transfer_runs_to_its_end() {
    let mut m = connected();
    offered(&mut m, CHUNK_SIZE + 10);
    let mut run = m.begin_outgoing(&s("bob"), 2).ok().unwrap();
    assert_eq!(run.pending, vec![0, 1]);
    assert_eq!(run.link, 0);
    assert_eq!(m.next_chunk(&mut run), SendStep::Chunk(0));
    assert_eq!(
        told(&m.chunk_sent(2, 0, CHUNK_SIZE, 1)),
        vec!["store chunk t1 0", "progress t1 8388608 active"]
    );
    assert_eq!(m.next_chunk(&mut run), SendStep::Chunk(1));
    m.chunk_sent(2, 1, 10, 2);
    assert_eq!(m.next_chunk(&mut run), SendStep::Drain);
    assert_eq!(
        told(&m.finish_outgoing(&s("bob"), 2)),
        vec!["store state t1 completed 8388618", "progress t1 8388618 completed"]
    );
    assert!(!m.outgoing_transfers.contains_key(&s("t1")));
    assert!(m.handles.is_empty());
}

#[test]
fn a_transfer_needs_a_connected_peer() {
    let mut m = ConnectionManager::new(s("alice"));
    offered(&mut m, 1);
    match m.begin_outgoing(&s("bob"), 0) {
        Err(CoreError::NotFound(text)) => assert_eq!(text, "peer bob not connected"),
        _ => panic!("expected an error"),
    }
}

#[test]
fn a_paused_transfer_waits() {
    let mut m = connected();
    offered(&mut m, CHUNK_SIZE * 3);
    let mut run = m.begin_outgoing(&s("bob"), 2).ok().unwrap();
    m.pause_outgoing_transfer(&s("t1"));
    assert_eq!(m.next_chunk(&mut run), SendStep::Wait);
    assert_eq!(m.next_chunk(&mut run), SendStep::Wait);
    m.resume_outgoing_transfer(&s("t1"));
    assert_eq!(m.next_chunk(&mut run), SendStep::Chunk(0));
    m.pause_outgoing_transfer(&s("unknown"));
    assert_eq!(m.next_chunk(&mut run), SendStep::Chunk(1));
    // A cancellation ends a pause, and no chunk follows it.
    m.pause_outgoing_transfer(&s("t1"));
    assert_eq!(m.next_chunk(&mut run), SendStep::Wait);
    assert!(m.cancel_transfer(&s("bob"), &s("t1")).is_ok());
    assert_eq!(m.next_chunk(&mut run), SendStep::Drain);
    assert_eq!(m.next_chunk(&mut run), SendStep::Drain);
}

#[test]
fn a_cancelled_transfer_stops_and_tells_the_peer() {
    let mut m = connected();
    offered(&mut m, CHUNK_SIZE * 2);
    let mut run = m.begin_outgoing(&s("bob"), 2).ok().unwrap();
    assert_eq!(m.next_chunk(&mut run), SendStep::Chunk(0));
    assert_eq!(
        told_one(m.cancel_transfer(&s("bob"), &s("t1"))),
        "send 0 FileTransferCancelled { transfer_id: \"t1\", by_device_id: \"alice\" }"
    );
    assert_eq!(m.next_chunk(&mut run), SendStep::Drain);
    assert_eq!(
        told(&m.finish_outgoing(&s("bob"), 2)),
        vec![
            "send 0 FileTransferCancelled { transfer_id: \"t1\", by_device_id: \"alice\" }",
            "store state t1 cancelled 0",
            "progress t1 0 cancelled",
        ]
    );
}

#[test]
fn a_cancellation_by_the_peer_reaches_both_directions() {
    let mut m = connected();
    offered(&mut m, 10);
    m.accept_file(&s("bob"), &offer(10), HashSet::new(), s("/in"));
    let cancelled =
        ProtocolMessage::FileTransferCancelled { transfer_id: s("t1"), by_device_id: s("bob") };
    assert_eq!(told(&dispatch(&mut m, "bob", cancelled)), vec!["cancelled t1 bob"]);
    assert!(m.handles.get(&2).unwrap().is_cancelled());
    assert!(m.incoming_transfers.get(&s("t1")).unwrap().handle.is_cancelled());
    assert_eq!(told_one(m.cancel_transfer(&s("dave"), &s("t1"))), "no active session with dave");
}

#[test]
fn an_accepted_file_is_received() {
    let mut m = connected();
    let accepted = m.accept_file(&s("bob"), &offer(CHUNK_SIZE + 3), HashSet::new(), s("/in/f"));
    assert_eq!(accepted.record.local_path, "/in/f");
    assert_eq!(accepted.record.total_chunks, 99);
    assert_eq!(accepted.record.chunk_size, 5);
    assert_eq!(accepted.record.direction.as_str(), "receive");
    assert_eq!(told_one(accepted.answer), "send 0 FileAccept { transfer_id: \"t1\" }");

    match m.dispatch_incoming(&s("bob"), ProtocolMessage::FileChunk(chunk(1, b"abc"))) {
        Dispatched::Chunk(ChunkStep::Write(w)) => {
            assert_eq!(w.transfer_id, "t1");
            assert_eq!(w.chunk_index, 1);
            assert_eq!(w.dest_path, "/in/f");
            assert_eq!(w.offset, CHUNK_SIZE);
            assert_eq!(w.payload, b"abc");
        }
        _ => panic!("not written"),
    }
    assert_eq!(
        told(&m.chunk_written(&s("bob"), &s("t1"), 1, 3, 0)),
        vec![
            "store chunk t1 1",
            "progress t1 3 active",
            "send 0 FileChunkAck { transfer_id: \"t1\", chunk_index: 1 }",
        ]
    );
    assert_eq!(
        told(&m.chunk_written(&s("dave"), &s("t1"), 0, CHUNK_SIZE, 0)),
        vec![
            "store chunk t1 0",
            "progress t1 8388611 active",
            "store state t1 completed 8388611",
            "complete t1",
        ]
    );
    assert!(!m.incoming_transfers.contains_key(&s("t1")));
    assert!(m.chunk_written(&s("bob"), &s("t1"), 0, 1, 0).is_empty());
}

#[test]
fn the_last_chunk_is_answered_with_the_end() {
    let mut m = connected();
    m.accept_file(&s("bob"), &offer(2), HashSet::new(), s("/in"));
    assert_eq!(
        told(&m.chunk_written(&s("bob"), &s("t1"), 0, 2, 0)),
        vec![
            "store chunk t1 0",
            "progress t1 2 active",
            "send 0 FileChunkAck { transfer_id: \"t1\", chunk_index: 0 }",
            "store state t1 completed 2",
            "complete t1",
            "send 0 FileTransferComplete { transfer_id: \"t1\" }",
        ]
    );
}

#[test]
fn a_resumed_file_expects_only_what_is_missing() {
    let mut m = connected();
    let mut acked = HashSet::new();
    acked.insert(0u64);
    m.accept_file(&s("bob"), &offer(CHUNK_SIZE * 2), acked, s("/in"));
    let handle = &m.incoming_transfers.get(&s("t1")).unwrap().handle;
    assert_eq!(handle.pending_chunk_indices(), vec![1]);
    assert_eq!(handle.progress(TransferState::Active).bytes_transferred, CHUNK_SIZE);
}

#[test]
fn what_was_received_is_kept() {
    let mut acked = HashSet::new();
    assert_eq!(destination_setup(&acked), Setup::Create);
    acked.insert(3u64);
    assert_eq!(destination_setup(&acked), Setup::Keep);
}

#[test]
fn a_file_is_not_accepted_twice() {
    let mut m = connected();
    assert_eq!(m.being_received(&s("t1")), None);
    m.accept_file(&s("bob"), &offer(10), HashSet::new(), s("/in"));
    assert_eq!(m.being_received(&s("t1")), Some(s("/in")));
    assert!(m.cancel_transfer(&s("bob"), &s("t1")).is_ok());
    assert_eq!(m.being_received(&s("t1")), None);
}

#[test]
fn a_cancelled_file_is_not_written() {
    let mut m = connected();
    m.accept_file(&s("bob"), &offer(10), HashSet::new(), s("/in"));
    assert!(m.cancel_transfer(&s("bob"), &s("t1")).is_ok());
    assert!(matches!(m.handle_incoming_chunk(chunk(0, b"x")), ChunkStep::Cancelled));
    match m.dispatch_incoming(&s("bob"), ProtocolMessage::FileChunk(chunk(0, b"x"))) {
        Dispatched::Chunk(step) => assert!(matches!(step, ChunkStep::Cancelled)),
        Dispatched::Actions(_) => panic!("not a chunk"),
    }
    m.accept_file(&s("bob"), &offer(10), HashSet::new(), s("/in"));
    assert!(matches!(m.handle_incoming_chunk(chunk(0, b"x")), ChunkStep::Write(_)));
}

#[test]
fn bad_chunks_are_dropped() {
    let mut m = connected();
    assert!(matches!(m.handle_incoming_chunk(chunk(0, b"x")), ChunkStep::Unknown));
    m.accept_file(&s("bob"), &offer(10), HashSet::new(), s("/in"));
    let mut tampered = chunk(0, b"x");
    tampered.payload = b"y".to_vec();
    assert!(matches!(m.handle_incoming_chunk(tampered), ChunkStep::Corrupt));
    assert!(matches!(m.handle_incoming_chunk(chunk(1 << 41, b"x")), ChunkStep::OutOfRange));
    assert!(matches!(m.handle_incoming_chunk(chunk(0, b"x")), ChunkStep::Write(_)));
}

#[test]
fn a_completion_message_ends_the_receiving() {
    let mut m = connected();
    m.accept_file(&s("bob"), &offer(10), HashSet::new(), s("/in"));
    let done = ProtocolMessage::FileTransferComplete { transfer_id: s("t1") };
    assert_eq!(told(&dispatch(&mut m, "bob", done)), vec!["complete t1"]);
    assert!(!m.incoming_transfers.contains_key(&s("t1")));
}

#[test]
fn refusals_are_sent_to_the_peer() {
    let m = connected();
    assert_eq!(
        told_one(m.reject_file(&s("bob"), &s("t1"), &s("no"))),
        "send 0 FileReject { transfer_id: \"t1\", reason: \"no\" }"
    );
    assert_eq!(
        told_one(m.accept_folder(&s("carol"), &s("b1"))),
        "send 1 FolderAccept { folder_batch_id: \"b1\" }"
    );
    assert_eq!(told_one(m.accept_folder(&s("dave"), &s("b1"))), "no active session with dave");
    assert_eq!(
        told_one(m.reject_folder(&s("carol"), &s("b1"), &s("no"))),
        "send 1 FolderReject { folder_batch_id: \"b1\", reason: \"no\" }"
    );
    assert_eq!(
        told_one(m.reject_folder(&s("dave"), &s("b1"), &s("no"))),
        "no active session with dave"
    );
}

#[test]
fn interrupted_transfers_are_judged() {
    let mut m = connected();
    let mut t = ResumableTransfer {
        transfer_id: s("t1"),
        peer_device_id: s("bob"),
        direction: s("send"),
        local_path: s("/home/a/f.bin"),
    };
    assert_eq!(m.resume_decision(&s("bob"), &t), ResumeDecision::Resume);
    assert_eq!(m.resume_decision(&s("carol"), &t), ResumeDecision::NotOurs);
    t.direction = s("receive");
    assert_eq!(m.resume_decision(&s("bob"), &t), ResumeDecision::NotOurs);
    t.direction = s("send");
    t.local_path = FileSource::Fd(3).local_path_for_db();
    assert_eq!(m.resume_decision(&s("bob"), &t), ResumeDecision::FdSource);
    offered(&mut m, 1);
    assert_eq!(m.resume_decision(&s("bob"), &t), ResumeDecision::Running);
}

#[test]
fn a_resumed_transfer_sends_what_is_missing() {
    let mut m = connected();
    let mut acked = HashSet::new();
    acked.insert(1u64);
    let h = m.resume_outgoing(s("t9"), s("f"), CHUNK_SIZE * 3, s("/p"), acked);
    let run = m.begin_outgoing(&s("bob"), h).ok().unwrap();
    assert_eq!(run.transfer_id, "t9");
    assert_eq!(run.pending, vec![0, 2]);
    // Nobody waits for a decision on it.
    let accept = ProtocolMessage::FileAccept { transfer_id: s("t9") };
    assert_eq!(told(&dispatch(&mut m, "bob", accept)), vec!["accept bob t9"]);
}

/// A folder with two files, or none.
fn folder(files: bool) -> FolderSend {
    let mut send = FolderSend::new_as(s("b1"), s("conv"));
    if files {
        assert!(send.manifest.has_room(7));
        send.add_file(s("/x/a.txt"), Some(s("a.txt")), s("a.txt"), 3, s("text/plain"));
        send.add_file(s("/x/b/c.png"), None, s("b/c.png"), 4, s("image/png"));
    }
    send
}

#[test]
fn a_folder_is_offered_and_decided_once() {
    let mut m = connected();
    assert_eq!(
        told_one(m.offer_folder(&s("bob"), None, &folder(false))),
        "folder contains no files to send"
    );
    let send = folder(true);
    match m.offer_folder(&s("bob"), None, &send) {
        Ok(Action::Send { link, message: ProtocolMessage::FolderOffer(f) }) => {
            assert_eq!(link, 0);
            assert_eq!(f.folder_batch_id, "b1");
            assert_eq!(f.folder_name, "folder");
            assert_eq!(f.conversation_id, "conv");
            assert_eq!(f.total_files, 2);
            assert_eq!(f.total_size, 7);
            assert_eq!(f.files.len(), 2);
            assert_eq!(f.files[1].relative_path, "b/c.png");
        }
        _ => panic!("no offer"),
    }
    let accept = ProtocolMessage::FolderAccept { folder_batch_id: s("b1") };
    assert_eq!(
        told(&dispatch(&mut m, "bob", accept.clone())),
        vec!["resolve folder b1 true", "folder accept bob b1"]
    );
    assert_eq!(told(&dispatch(&mut m, "bob", accept)), vec!["folder accept bob b1"]);
    let send = m.folder_decided(send, true).ok().unwrap();
    assert_eq!(m.pending_folder_offers.get(&s("b1")), Some(&false));
    assert_eq!(send.manifest.entries.len(), 2);
}

#[test]
fn a_refused_folder_is_an_error() {
    let mut m = connected();
    let send = folder(true);
    assert!(m.offer_folder(&s("bob"), Some(s("n")), &send).is_ok());
    let reject = ProtocolMessage::FolderReject { folder_batch_id: s("b1"), reason: s("no") };
    assert_eq!(
        told(&dispatch(&mut m, "bob", reject)),
        vec!["resolve folder b1 false", "folder reject bob b1 no"]
    );
    assert_eq!(
        m.folder_decided(send, false).err().unwrap().into_text(),
        "folder offer was rejected or timed out"
    );
    assert!(!m.pending_folder_offers.contains_key(&s("b1")));
    assert_eq!(
        told_one(m.offer_folder(&s("dave"), None, &folder(true))),
        "no active session with dave"
    );
}

#[test]
fn files_of_a_folder_are_offered_as_listed() {
    let mut m = connected();
    let send = folder(true);
    assert!(m.offer_folder(&s("bob"), None, &send).is_ok());
    let mut send = m.folder_decided(send, true).ok().unwrap();

    let d = send.next_file().unwrap();
    assert_eq!(d.source.local_path_for_db(), "/x/a.txt");
    assert_eq!(d.file_name, "a.txt");
    assert_eq!(d.message_id.len(), 36);
    send.file_offered(None);
    let d = send.next_file().unwrap();
    assert_eq!(d.source.local_path_for_db(), "/x/b/c.png");
    assert_eq!(d.file_name, "file");
    assert_eq!(d.file_size, 4);
    assert_eq!(d.mime_type, "image/png");
    assert_eq!(d.conversation_id, "conv");
    assert_eq!(d.relative_path, "b/c.png");
    assert_eq!(d.folder_batch_id, Some(s("b1")));

    // The folder is accepted, so nobody waits for a decision on the file.
    let o = m.send_file_as(s("t7"), &s("bob"), d);
    assert!(o.accepted);
    assert!(!m.outgoing_transfers.get(&s("t7")).unwrap().awaiting_decision);
    send.file_offered(Some(o.transfer_id));
    assert!(send.next_file().is_none());
    assert_eq!(m.finish_folder(send).ok().unwrap(), vec![(s("b/c.png"), s("t7"))]);
    assert!(!m.pending_folder_offers.contains_key(&s("b1")));

    // A file of another folder, or of none, is decided by itself.
    let o = m.send_file_as(s("t8"), &s("bob"), details(1));
    assert!(!o.accepted);
}

#[test]
fn offered_files_keep_the_order_of_the_list() {
    let mut m = connected();
    let mut send = folder(true);
    send.add_file(s("/x/d"), None, s("d"), 0, s("x"));
    send.file_offered(Some(s("t1")));
    send.file_offered(None);
    send.file_offered(Some(s("t3")));
    assert_eq!(
        m.finish_folder(send).ok().unwrap(),
        vec![(s("a.txt"), s("t1")), (s("d"), s("t3"))]
    );
    let mut send = folder(true);
    send.file_offered(None);
    send.file_offered(None);
    assert_eq!(
        m.finish_folder(send).err().unwrap().into_text(),
        "no files in folder could be offered (all failed)"
    );
    assert_eq!(FolderSend::new(s("c")).folder_batch_id.len(), 36);
}

#[test]
fn a_chunk_message_carries_the_digest() {
    let c = chunk(4, &[1, 2, 3]);
    assert_eq!(c.transfer_id, "t1");
    assert_eq!(c.chunk_index, 4);
    assert_eq!(c.payload, vec![1, 2, 3]);
    assert_eq!(c.checksum_sha256[0..4].to_vec(), vec![0x03, 0x90, 0x58, 0xc6]);
    assert_eq!(c.checksum_sha256[31], 0x81);
}
