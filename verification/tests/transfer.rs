use std::collections::HashSet;
use zao_transfer_core::framing::{frame, frame_length, MAX_FRAME};
use zao_transfer_core::transfer::{
    acked_bytes, chunk_count, chunk_offset, chunk_read_len, done_fraction, ChunkFrame, FileSource,
    SendStep, SenderSchedule, SpeedWindow, TransferHandle, TransferState, CHUNK_SIZE,
    DEFAULT_PARALLELISM,
};

const SECOND: u64 = 1_000_000_000;

#[test]
fn chunk_frame_roundtrip_and_checksum() {
    let payload = vec![42u8; 1024];
    let frame = ChunkFrame::new(3, payload.clone());
    assert!(frame.verify());

    let encoded = frame.encode();
    assert_eq!(encoded.len(), 8 + 4 + 32 + payload.len());
}

#[test]
fn tampered_payload_fails_checksum() {
    let payload = vec![1u8; 100];
    let mut frame = ChunkFrame::new(0, payload);
    frame.payload[0] = 0xFF; // corrupt after checksum was computed
    assert!(!frame.verify());
}

#[test]
fn progress_math_is_sane() {
    let mut handle = TransferHandle::new("t1".into(), "file.bin".into(), 100);
    handle.mark_chunk_acked(0, 50, 0);
    let progress = handle.progress(TransferState::Active);
    assert_eq!(progress.bytes_transferred, 50);
    let (done, all) = done_fraction(progress.bytes_transferred, progress.total_bytes);
    let percent = (done as f64 / all as f64 * 100.0) as f32;
    assert_eq!(percent, 50.0);
}

#[test]
fn resume_skips_already_acked_chunks() {
    let mut acked = HashSet::new();
    acked.insert(0u64);
    acked.insert(1u64);
    let handle =
        TransferHandle::resume_from_manifest("t2".into(), "big.bin".into(), CHUNK_SIZE * 5, acked);
    let pending = handle.pending_chunk_indices();
    assert_eq!(pending, vec![2, 3, 4]);
}

#[test]
fn read_chunk_reads_correct_offset_and_length() {
    let data = vec![7u8; (CHUNK_SIZE + 100) as usize];

    let chunk0 = chunk_read_len(0, data.len() as u64);
    assert_eq!(chunk0, CHUNK_SIZE as usize);
    assert_eq!(chunk_offset(0), Some(0));

    let chunk1 = chunk_read_len(1, data.len() as u64);
    assert_eq!(chunk1, 100); // remainder, not a full chunk
    assert_eq!(chunk_offset(1), Some(CHUNK_SIZE));
}

#[test]
fn constants_are_as_documented() {
    assert_eq!(CHUNK_SIZE, 8 * 1024 * 1024);
    assert_eq!(DEFAULT_PARALLELISM, 6);
    assert_eq!(MAX_FRAME, 8 * 1024 * 1024 + 4096);
}

#[test]
fn chunk_layout_edges() {
    assert_eq!(chunk_count(0), 0);
    assert_eq!(chunk_count(1), 1);
    assert_eq!(chunk_count(CHUNK_SIZE), 1);
    assert_eq!(chunk_count(CHUNK_SIZE + 1), 2);
    assert_eq!(chunk_count(u64::MAX), 2199023255552);
    assert_eq!(chunk_read_len(0, 0), 0);
    assert_eq!(chunk_read_len(5, 10), 0);
    assert_eq!(chunk_read_len(u64::MAX, u64::MAX), 0);
    assert_eq!(chunk_offset(1 << 41), None);
    assert_eq!(chunk_offset((1 << 41) - 1), Some(((1u64 << 41) - 1) * CHUNK_SIZE));
}

#[test]
fn encoded_chunk_layout_and_header() {
    let frame = ChunkFrame::new(0x0102030405060708, vec![1, 2, 3]);
    let encoded = frame.encode();
    assert_eq!(encoded[0..8].to_vec(), vec![8, 7, 6, 5, 4, 3, 2, 1]);
    assert_eq!(encoded[8..12].to_vec(), vec![3, 0, 0, 0]);
    assert_eq!(
        encoded[12..16].to_vec(),
        vec![0x03, 0x90, 0x58, 0xc6],
        "the digest of the payload"
    );
    assert_eq!(encoded[44..].to_vec(), vec![1, 2, 3]);

    let mut header = [0u8; 44];
    header.copy_from_slice(&encoded[0..44]);
    let parsed = ChunkFrame::parse_header(&header);
    assert_eq!(parsed.chunk_index, 0x0102030405060708);
    assert_eq!(parsed.payload_len, 3);
    let back = ChunkFrame::from_parts(parsed, encoded[44..].to_vec());
    assert!(back.verify());
    assert_eq!(back.checksum, frame.checksum);
    assert_eq!(back.payload, frame.payload);
}

#[test]
fn acknowledging_twice_counts_once() {
    let mut handle = TransferHandle::new("t".into(), "f".into(), CHUNK_SIZE * 3);
    handle.mark_chunk_acked(1, CHUNK_SIZE, 5);
    handle.mark_chunk_acked(1, CHUNK_SIZE, 6);
    assert_eq!(handle.progress(TransferState::Active).bytes_transferred, CHUNK_SIZE);
    assert_eq!(handle.pending_chunk_indices(), vec![0, 2]);
    let mut expected = HashSet::new();
    expected.insert(1u64);
    assert_eq!(handle.acked_chunk_set(), expected);
}

#[test]
fn flags_of_a_handle() {
    let mut handle = TransferHandle::new("t".into(), "f".into(), 1);
    assert_eq!(handle.transfer_id(), "t");
    assert_eq!(handle.total_chunks(), 1);
    assert!(!handle.is_paused() && !handle.is_cancelled());
    handle.pause();
    assert!(handle.is_paused() && !handle.is_cancelled());
    handle.resume();
    handle.cancel();
    assert!(!handle.is_paused() && handle.is_cancelled());
}

#[test]
fn speed_is_taken_over_recent_samples() {
    let mut handle = TransferHandle::new("t".into(), "f".into(), 1000);
    assert_eq!(handle.progress(TransferState::Active).window, None);
    handle.mark_chunk_acked(0, 10, SECOND);
    assert_eq!(handle.progress(TransferState::Active).window, None);
    handle.mark_chunk_acked(1, 20, 2 * SECOND);
    assert_eq!(
        handle.progress(TransferState::Active).window,
        Some(SpeedWindow { elapsed_nanos: SECOND, first_bytes: 10, last_bytes: 30 })
    );
    // The first sample is exactly five seconds old now and drops out.
    handle.mark_chunk_acked(2, 30, 6 * SECOND);
    let progress = handle.progress(TransferState::Paused);
    assert_eq!(
        progress.window,
        Some(SpeedWindow { elapsed_nanos: 4 * SECOND, first_bytes: 30, last_bytes: 60 })
    );
    assert_eq!(progress.remaining_bytes, 940);
    assert_eq!(progress.state, TransferState::Paused);
    assert_eq!(progress.file_name, "f");
}

#[test]
fn samples_at_one_moment_give_no_speed() {
    let mut handle = TransferHandle::new("t".into(), "f".into(), 1000);
    handle.mark_chunk_acked(0, 10, SECOND);
    handle.mark_chunk_acked(1, 10, SECOND);
    assert_eq!(handle.progress(TransferState::Active).window, None);
}

#[test]
fn resumed_bytes_never_exceed_the_file() {
    let mut acked = HashSet::new();
    acked.insert(0u64);
    acked.insert(1u64);
    let handle =
        TransferHandle::resume_from_manifest("t".into(), "f".into(), CHUNK_SIZE + 5, acked);
    let progress = handle.progress(TransferState::Queued);
    assert_eq!(progress.bytes_transferred, CHUNK_SIZE + 5);
    assert_eq!(progress.remaining_bytes, 0);
    assert!(handle.pending_chunk_indices().is_empty());
    assert_eq!(acked_bytes(3, u64::MAX), 3 * CHUNK_SIZE);
    assert_eq!(acked_bytes(0, 5), 0);
    assert_eq!(acked_bytes(usize::MAX, u64::MAX), u64::MAX);
}

#[test]
fn empty_file_is_done() {
    let handle = TransferHandle::new("t".into(), "f".into(), 0);
    assert!(handle.pending_chunk_indices().is_empty());
    assert_eq!(done_fraction(0, 0), (1, 1));
}

#[test]
fn state_names() {
    assert_eq!(TransferState::Queued.as_str(), "queued");
    assert_eq!(TransferState::Active.as_str(), "active");
    assert_eq!(TransferState::Paused.as_str(), "paused");
    assert_eq!(TransferState::Completed.as_str(), "completed");
    assert_eq!(TransferState::Failed.as_str(), "failed");
    assert_eq!(TransferState::Cancelled.as_str(), "cancelled");
}

#[test]
fn file_sources_and_their_texts() {
    let path = FileSource::Path("/tmp/a".to_string());
    assert_eq!(path.local_path_for_db(), "/tmp/a");
    assert_eq!(path.open_path(), "/tmp/a");
    assert_eq!(path.open_failure("gone"), "gone");
    let fd = FileSource::Fd(42);
    assert_eq!(fd.local_path_for_db(), "fd:42");
    assert_eq!(fd.open_path(), "/proc/self/fd/42");
    assert_eq!(
        fd.open_failure("gone"),
        "failed to reopen fd 42 via /proc/self/fd/42 (this path only works on Linux/Android, and only while the original ParcelFileDescriptor stays open on the Kotlin side for the duration of the transfer): gone"
    );
    assert_eq!(FileSource::Fd(-1).local_path_for_db(), "fd:-1");
    assert_eq!(FileSource::Fd(i32::MIN).local_path_for_db(), "fd:-2147483648");
}

#[test]
fn sender_schedule_waits_and_stops() {
    let handle = TransferHandle::new("t".into(), "f".into(), CHUNK_SIZE * 2);
    let mut schedule = SenderSchedule::new(&handle);
    assert_eq!(schedule.step(false, true).unwrap(), SendStep::Wait);
    assert_eq!(schedule.step(false, false).unwrap(), SendStep::Chunk(0));
    assert_eq!(schedule.step(true, false).unwrap_err().into_text(), "transfer cancelled");
    assert_eq!(schedule.step(true, true).unwrap_err().into_text(), "transfer cancelled");
    assert_eq!(schedule.step(false, false).unwrap(), SendStep::Chunk(1));
    assert_eq!(schedule.step(true, true).unwrap(), SendStep::Drain);
}

#[test]
fn frames_are_read_back() {
    let framed = frame(b"abc");
    assert_eq!(framed, vec![3, 0, 0, 0, b'a', b'b', b'c']);
    assert_eq!(frame_length(&[3, 0, 0, 0]).unwrap(), 3);
    assert_eq!(frame(b""), vec![0, 0, 0, 0]);
    assert_eq!(frame_length(&[0, 0x10, 0x80, 0]).unwrap(), MAX_FRAME);
    assert_eq!(
        frame_length(&[1, 0x10, 0x80, 0]).unwrap_err().into_text(),
        "frame length 8392705 exceeds max 8392704"
    );
    assert_eq!(
        frame_length(&[255, 255, 255, 255]).unwrap_err().into_text(),
        "frame length 4294967295 exceeds max 8392704"
    );
}

#[test]
fn bytes_are_read_from_their_chunk_only() {
    let total = CHUNK_SIZE * 2 + 3;
    let mut covered = 0u64;
    for index in 0..chunk_count(total) {
        assert_eq!(chunk_offset(index), Some(covered));
        covered += chunk_read_len(index, total) as u64;
    }
    assert_eq!(covered, total);
}
