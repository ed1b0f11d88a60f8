//! Chunked file transfers: how a file is cut into chunks, how a chunk is
//! framed and checked, and the progress of a transfer that can be paused,
//! cancelled and resumed.
use std::collections::HashSet;
use vstd::prelude::*;

use crate::bytes;
use crate::bytes::{le_u32_bytes, le_u32_value, le_u64_bytes, le_u64_value};
use crate::crypto;
use crate::crypto::sha256_of;
use crate::error::{CoreError, ErrorView, Result};
use crate::text::{concat2, concat4, signed_decimal, signed_decimal_string};

verus! {

broadcast use vstd::std_specs::hash::group_hash_axioms;

/// The size of every chunk but the last: large enough to keep the cost of
/// framing low, small enough that a repeated chunk wastes little.
pub const CHUNK_SIZE: u64 = 8388608;

/// How many chunks of one transfer are in flight at once.
pub const DEFAULT_PARALLELISM: usize = 6;

/// The length of the header in front of a framed chunk.
pub const CHUNK_HEADER: usize = 44;

/// How long a sample of the transferred bytes counts for the speed, in
/// nanoseconds.
pub const SPEED_WINDOW_NANOS: u64 = 5000000000;

/// How often a paused transfer looks whether it goes on, in milliseconds.
pub const PAUSE_POLL_MILLIS: u64 = 200;

#[derive(Debug, Clone, Copy, PartialEq, Eq, Structural)]
pub enum TransferState {
    Queued,
    Active,
    Paused,
    Completed,
    Failed,
    Cancelled,
}

impl TransferState {
    /// Nothing more will come of a transfer in this state. One in any other
    /// state is taken up again when its peer connects.
    pub open spec fn is_final(self) -> bool {
        self is Completed || self is Failed || self is Cancelled
    }

    pub open spec fn name(self) -> Seq<char> {
        match self {
            TransferState::Queued => "queued"@,
            TransferState::Active => "active"@,
            TransferState::Paused => "paused"@,
            TransferState::Completed => "completed"@,
            TransferState::Failed => "failed"@,
            TransferState::Cancelled => "cancelled"@,
        }
    }

    pub fn as_str(&self) -> (s: &'static str)
        ensures
            s@ == self.name(),
    {
        match self {
            TransferState::Queued => "queued",
            TransferState::Active => "active",
            TransferState::Paused => "paused",
            TransferState::Completed => "completed",
            TransferState::Failed => "failed",
            TransferState::Cancelled => "cancelled",
        }
    }
}

/// How many chunks a file of this size has: every chunk is full but the last.
pub open spec fn chunks_of(total_bytes: int) -> int {
    (total_bytes + CHUNK_SIZE - 1) / CHUNK_SIZE as int
}

/// The number of chunks of a file.
pub fn chunk_count(total_bytes: u64) -> (n: u64)
    ensures
        n == chunks_of(total_bytes as int),
{
    if total_bytes % CHUNK_SIZE == 0 {
        total_bytes / CHUNK_SIZE
    } else {
        total_bytes / CHUNK_SIZE + 1
    }
}

/// The length of the chunk with this index in a file of this size.
pub open spec fn chunk_len(total_bytes: int, index: int) -> int {
    let left = total_bytes - index * CHUNK_SIZE;
    if left <= 0 {
        0
    } else if left < CHUNK_SIZE {
        left
    } else {
        CHUNK_SIZE as int
    }
}

/// Where a chunk begins in the file, unless that is beyond every file.
pub fn chunk_offset(chunk_index: u64) -> (r: Option<u64>)
    ensures
        match r {
            Some(offset) => offset == chunk_index * CHUNK_SIZE,
            None => chunk_index * CHUNK_SIZE > u64::MAX,
        },
{
    chunk_index.checked_mul(CHUNK_SIZE)
}

/// How many bytes to read for a chunk of a file that is `file_len` bytes long.
pub fn chunk_read_len(chunk_index: u64, file_len: u64) -> (n: usize)
    ensures
        n == chunk_len(file_len as int, chunk_index as int),
{
    match chunk_offset(chunk_index) {
        Some(offset) => {
            let remaining: u64 = file_len.saturating_sub(offset);
            if remaining < CHUNK_SIZE {
                remaining as usize
            } else {
                CHUNK_SIZE as usize
            }
        },
        None => 0,
    }
}

/// Where the bytes of an outgoing file come from: a path, or the number of an
/// open file descriptor where the file has no path of its own.
pub enum FileSource {
    Path(String),
    Fd(i32),
}

impl Clone for FileSource {
    fn clone(&self) -> (r: Self)
        ensures
            r == *self,
    {
        match self {
            FileSource::Path(p) => FileSource::Path(p.clone()),
            FileSource::Fd(fd) => FileSource::Fd(*fd),
        }
    }
}

impl FileSource {
    /// The text kept in the database for this source.
    pub open spec fn stored_path(self) -> Seq<char> {
        match self {
            FileSource::Path(p) => p@,
            FileSource::Fd(fd) => "fd:"@ + signed_decimal(fd as int),
        }
    }

    pub fn local_path_for_db(&self) -> (s: String)
        ensures
            s@ == self.stored_path(),
    {
        match self {
            FileSource::Path(p) => p.clone(),
            FileSource::Fd(fd) => concat2("fd:", signed_decimal_string(*fd).as_str()),
        }
    }

    /// The path to open for reading. A descriptor is opened again through the
    /// process's own table, so that every reader has a position of its own.
    pub open spec fn open_path_text(self) -> Seq<char> {
        match self {
            FileSource::Path(p) => p@,
            FileSource::Fd(fd) => "/proc/self/fd/"@ + signed_decimal(fd as int),
        }
    }

    pub fn open_path(&self) -> (s: String)
        ensures
            s@ == self.open_path_text(),
    {
        match self {
            FileSource::Path(p) => p.clone(),
            FileSource::Fd(fd) => concat2("/proc/self/fd/", signed_decimal_string(*fd).as_str()),
        }
    }

    /// The text of the error for a source that could not be opened: of a path
    /// the cause alone, of a descriptor also what has to hold for it.
    pub open spec fn open_failure_text(self, cause: Seq<char>) -> Seq<char> {
        match self {
            FileSource::Path(_) => cause,
            FileSource::Fd(fd) => "failed to reopen fd "@ + signed_decimal(fd as int) + " via "@
                + self.open_path_text()
                + " (this path only works on Linux/Android, and only while the original ParcelFileDescriptor stays open on the Kotlin side for the duration of the transfer): "@
                + cause,
        }
    }

    pub fn open_failure(&self, cause: &str) -> (s: String)
        ensures
            s@ == self.open_failure_text(cause@),
    {
        match self {
            FileSource::Path(_) => cause.to_string(),
            FileSource::Fd(fd) => {
                let mut s: String = concat4(
                    "failed to reopen fd ",
                    signed_decimal_string(*fd).as_str(),
                    " via ",
                    self.open_path().as_str(),
                );
                s.append(
                    " (this path only works on Linux/Android, and only while the original ParcelFileDescriptor stays open on the Kotlin side for the duration of the transfer): ",
                );
                s.append(cause);
                s
            },
        }
    }
}

/// One chunk as it travels: its index, its bytes and their digest.
pub struct ChunkFrame {
    pub chunk_index: u64,
    pub payload: Vec<u8>,
    pub checksum: [u8; 32],
}

/// The header in front of a framed chunk.
pub struct ChunkHeader {
    pub chunk_index: u64,
    pub payload_len: usize,
    pub checksum: [u8; 32],
}

/// The framed form of a chunk: its index in eight bytes, its length in four,
/// its digest, and its bytes. Numbers have their least significant byte first.
pub open spec fn frame_bytes(index: u64, checksum: Seq<u8>, payload: Seq<u8>) -> Seq<u8> {
    le_u64_bytes(index) + le_u32_bytes((payload.len() % 4294967296) as u32) + checksum + payload
}

impl ChunkFrame {
    /// The digest is that of the payload.
    pub open spec fn intact(self) -> bool {
        self.checksum@ == sha256_of(self.payload@)
    }

    pub fn new(chunk_index: u64, payload: Vec<u8>) -> (r: Self)
        ensures
            r.chunk_index == chunk_index,
            r.payload == payload,
            r.intact(),
    {
        let checksum: [u8; 32] = crypto::sha256(&payload);
        ChunkFrame { chunk_index, payload, checksum }
    }

    /// Whether the payload is what the digest was made of.
    pub fn verify(&self) -> (r: bool)
        ensures
            r == self.intact(),
    {
        let computed: [u8; 32] = crypto::sha256(&self.payload);
        bytes::equal(&computed, &self.checksum)
    }

    pub fn encode(&self) -> (buf: Vec<u8>)
        ensures
            buf@ == frame_bytes(self.chunk_index, self.checksum@, self.payload@),
            buf@.len() == CHUNK_HEADER + self.payload@.len(),
    {
        let mut buf: Vec<u8> = Vec::new();
        let len: u32 = (self.payload.len() as u64 % 4294967296) as u32;
        bytes::push_le_u64(&mut buf, self.chunk_index);
        bytes::push_le_u32(&mut buf, len);
        bytes::extend(&mut buf, &self.checksum);
        bytes::extend(&mut buf, &self.payload);
        assert(buf@ =~= frame_bytes(self.chunk_index, self.checksum@, self.payload@));
        buf
    }

    /// Reads the header of a framed chunk: after it come `payload_len` bytes.
    pub fn parse_header(header: &[u8; 44]) -> (r: ChunkHeader)
        ensures
            r.chunk_index == le_u64_value(header@),
            r.payload_len == le_u32_value(header@.subrange(8, 12)),
            r.checksum@ == header@.subrange(12, 44),
    {
        let whole: &[u8] = header;
        let (index_part, rest) = whole.split_at(8);
        let (len_part, sum_part) = rest.split_at(4);
        proof {
            assert(index_part@ =~= header@.subrange(0, 8));
            assert(len_part@ =~= header@.subrange(8, 12));
            assert(sum_part@ =~= header@.subrange(12, 44));
        }
        let chunk_index: u64 = bytes::read_le_u64(index_part);
        let payload_len: usize = bytes::read_le_u32(len_part) as usize;
        let checksum: [u8; 32] = match bytes::array32(sum_part) {
            Some(c) => c,
            None => [0u8;32],
        };
        ChunkHeader { chunk_index, payload_len, checksum }
    }

    /// The chunk of a header and the bytes that followed it, unchecked.
    pub fn from_parts(header: ChunkHeader, payload: Vec<u8>) -> (r: Self)
        ensures
            r.chunk_index == header.chunk_index,
            r.checksum == header.checksum,
            r.payload == payload,
    {
        ChunkFrame { chunk_index: header.chunk_index, payload, checksum: header.checksum }
    }
}

/// A framed chunk is read back as it was written: its header gives the index,
/// the digest and (for a payload whose length four bytes can hold) the length,
/// and the payload follows it.
pub proof fn frame_roundtrip(index: u64, checksum: Seq<u8>, payload: Seq<u8>)
    requires
        checksum.len() == 32,
        payload.len() <= u32::MAX,
    ensures
        ({
            let framed = frame_bytes(index, checksum, payload);
            &&& framed.len() == CHUNK_HEADER + payload.len()
            &&& le_u64_value(framed.take(44)) == index
            &&& le_u32_value(framed.take(44).subrange(8, 12)) == payload.len()
            &&& framed.take(44).subrange(12, 44) == checksum
            &&& framed.skip(44) == payload
        }),
{
    let framed = frame_bytes(index, checksum, payload);
    let len = payload.len() as u32;
    bytes::le_u64_roundtrip(index);
    bytes::le_u32_roundtrip(len);
    lemma_frame_parts(le_u64_bytes(index), le_u32_bytes(len), checksum, payload);
    assert forall|i: int| 0 <= i < 8 implies framed.take(44)[i] == #[trigger] le_u64_bytes(
        index,
    )[i] by {
        assert(framed.take(44).take(8)[i] == framed.take(44)[i]);
    }
}

/// Where the parts of a framed chunk are.
proof fn lemma_frame_parts(index: Seq<u8>, len: Seq<u8>, checksum: Seq<u8>, payload: Seq<u8>)
    requires
        index.len() == 8,
        len.len() == 4,
        checksum.len() == 32,
    ensures
        ({
            let framed = index + len + checksum + payload;
            &&& framed.len() == 44 + payload.len()
            &&& framed.take(44).take(8) == index
            &&& framed.take(44).subrange(8, 12) == len
            &&& framed.take(44).subrange(12, 44) == checksum
            &&& framed.skip(44) == payload
        }),
{
    let framed = index + len + checksum + payload;
    assert(framed.take(44).take(8) =~= index);
    assert(framed.take(44).subrange(8, 12) =~= len);
    assert(framed.take(44).subrange(12, 44) =~= checksum);
    assert(framed.skip(44) =~= payload);
}

/// The chunks of a file tile it: each is a full chunk or the rest of the file,
/// none is empty, and each begins where the one before it ends. So chunks that
/// are written in any order never touch each other's bytes.
pub proof fn chunks_tile_the_file(total_bytes: int, index: int)
    requires
        0 <= total_bytes,
        0 <= index < chunks_of(total_bytes),
    ensures
        0 < chunk_len(total_bytes, index) <= CHUNK_SIZE,
        index + 1 < chunks_of(total_bytes) ==> index * CHUNK_SIZE + chunk_len(total_bytes, index)
            == (index + 1) * CHUNK_SIZE,
        index + 1 == chunks_of(total_bytes) ==> index * CHUNK_SIZE + chunk_len(total_bytes, index)
            == total_bytes,
{
}

/// Every byte of a file is in exactly one chunk, which its position tells.
pub proof fn every_byte_is_in_one_chunk(total_bytes: int, position: int, index: int)
    requires
        0 <= position < total_bytes,
        0 <= index,
    ensures
        position / (CHUNK_SIZE as int) < chunks_of(total_bytes),
        index * CHUNK_SIZE <= position < index * CHUNK_SIZE + chunk_len(total_bytes, index) <==> index
            == position / (CHUNK_SIZE as int),
{
}

/// The chunk indices below `n` that are not acknowledged, in ascending order.
pub open spec fn pending_below(n: nat, acked: Set<u64>) -> Seq<u64>
    decreases n,
{
    if n == 0 {
        Seq::empty()
    } else {
        let rest = pending_below((n - 1) as nat, acked);
        if acked.contains((n - 1) as u64) {
            rest
        } else {
            rest.push((n - 1) as u64)
        }
    }
}

/// A chunk is pending exactly where it is a chunk of the file and not
/// acknowledged, and the pending chunks are in strictly ascending order.
pub proof fn pending_is_exact(n: nat, acked: Set<u64>)
    requires
        n <= u64::MAX,
    ensures
        forall|c: u64| #[trigger]
            pending_below(n, acked).contains(c) <==> c < n && !acked.contains(c),
        forall|i: int, j: int|
            0 <= i < j < pending_below(n, acked).len() ==> pending_below(n, acked)[i]
                < pending_below(n, acked)[j],
    decreases n,
{
    if n > 0 {
        let m = (n - 1) as nat;
        pending_is_exact(m, acked);
        let rest = pending_below(m, acked);
        let all = pending_below(n, acked);
        assert forall|c: u64| #[trigger] all.contains(c) <==> c < n && !acked.contains(c) by {
            assert(rest.contains(c) <==> c < m && !acked.contains(c));
            if all.contains(c) {
                let i = choose|i: int| 0 <= i < all.len() && all[i] == c;
                if i < rest.len() {
                    assert(rest[i] == c);
                    assert(rest.contains(c));
                }
            }
            if c < n && !acked.contains(c) {
                if c < m {
                    let i = choose|i: int| 0 <= i < rest.len() && rest[i] == c;
                    assert(all[i] == c);
                } else {
                    assert(all[all.len() - 1] == c);
                }
            }
        }
        assert forall|i: int, j: int| 0 <= i < j < all.len() implies all[i] < all[j] by {
            if j < rest.len() {
                assert(rest[i] < rest[j]);
            } else {
                assert(all[i] == rest[i]);
                assert(rest.contains(rest[i]));
            }
        }
    }
}

/// No chunk is pending exactly where every chunk of the file is acknowledged.
pub proof fn nothing_pending_means_complete(n: nat, acked: Set<u64>)
    requires
        n <= u64::MAX,
    ensures
        pending_below(n, acked).len() == 0 <==> (forall|c: u64| c < n ==> acked.contains(c)),
{
    pending_is_exact(n, acked);
    let all = pending_below(n, acked);
    if all.len() == 0 {
        assert forall|c: u64| c < n implies acked.contains(c) by {
            assert(!all.contains(c));
        }
    } else {
        assert(all.contains(all[0]));
    }
}

/// The samples that are younger than the speed window at time `now`.
pub open spec fn recent(samples: Seq<(u64, u64)>, now: u64) -> Seq<(u64, u64)>
    decreases samples.len(),
{
    if samples.len() == 0 {
        Seq::empty()
    } else {
        let rest = recent(samples.drop_last(), now);
        if now - samples.last().0 < SPEED_WINDOW_NANOS {
            rest.push(samples.last())
        } else {
            rest
        }
    }
}

/// The bytes moved between two moments, for the speed of a transfer.
#[derive(Debug, Clone, Copy, PartialEq, Eq, Structural)]
pub struct SpeedWindow {
    pub elapsed_nanos: u64,
    pub first_bytes: u64,
    pub last_bytes: u64,
}

/// A snapshot of a transfer. Percentage, speed and remaining time are ratios
/// of the numbers in it.
#[derive(Debug)]
pub struct TransferProgress {
    pub transfer_id: String,
    pub file_name: String,
    pub total_bytes: u64,
    pub bytes_transferred: u64,
    pub remaining_bytes: u64,
    pub window: Option<SpeedWindow>,
    pub state: TransferState,
}

impl Clone for TransferProgress {
    fn clone(&self) -> (r: Self)
        ensures
            r == *self,
    {
        TransferProgress {
            transfer_id: self.transfer_id.clone(),
            file_name: self.file_name.clone(),
            total_bytes: self.total_bytes,
            bytes_transferred: self.bytes_transferred,
            remaining_bytes: self.remaining_bytes,
            window: self.window,
            state: self.state,
        }
    }
}

/// The part of a transfer that is done, as a fraction: of an empty file all.
pub open spec fn fraction_done(transferred: u64, total: u64) -> (u64, u64) {
    if total == 0 {
        (1u64, 1u64)
    } else {
        (transferred, total)
    }
}

/// The fraction that [`fraction_done`] describes; its denominator is not zero.
pub fn done_fraction(transferred: u64, total: u64) -> (r: (u64, u64))
    ensures
        r == fraction_done(transferred, total),
        r.1 != 0,
{
    if total == 0 {
        (1, 1)
    } else {
        (transferred, total)
    }
}

/// The bytes of `chunks` full chunks of a file, but never more than it has.
pub open spec fn bytes_of_chunks(chunks: nat, total_bytes: u64) -> int {
    if chunks * CHUNK_SIZE < total_bytes {
        chunks * CHUNK_SIZE
    } else {
        total_bytes as int
    }
}

/// The bytes that acknowledged chunks stand for.
pub fn acked_bytes(chunks: usize, total_bytes: u64) -> (n: u64)
    ensures
        n == bytes_of_chunks(chunks as nat, total_bytes),
{
    let size: u128 = 8388608;
    let done: u128 = (chunks as u128) * size;
    if done < total_bytes as u128 {
        done as u64
    } else {
        total_bytes
    }
}

/// A transfer in progress: what it is, what is acknowledged, and whether it is
/// paused or cancelled.
pub struct TransferHandle {
    pub transfer_id: String,
    pub file_name: String,
    pub total_bytes: u64,
    pub total_chunks: u64,
    pub bytes_transferred: u64,
    pub paused: bool,
    pub cancelled: bool,
    pub speed_samples: Vec<(u64, u64)>,
    pub acked_chunks: HashSet<u64>,
}

/// What a transfer in progress is, mathematically.
#[verifier::ext_equal]
pub struct HandleView {
    pub transfer_id: String,
    pub file_name: String,
    pub total_bytes: u64,
    pub total_chunks: u64,
    pub bytes_transferred: u64,
    pub paused: bool,
    pub cancelled: bool,
    pub samples: Seq<(u64, u64)>,
    pub acked: Set<u64>,
}

impl View for TransferHandle {
    type V = HandleView;

    open spec fn view(&self) -> HandleView {
        HandleView {
            transfer_id: self.transfer_id,
            file_name: self.file_name,
            total_bytes: self.total_bytes,
            total_chunks: self.total_chunks,
            bytes_transferred: self.bytes_transferred,
            paused: self.paused,
            cancelled: self.cancelled,
            samples: self.speed_samples@,
            acked: self.acked_chunks@,
        }
    }
}

impl HandleView {
    /// The number of chunks is that of a file of this size.
    pub open spec fn wf(self) -> bool {
        self.total_chunks == chunks_of(self.total_bytes as int)
    }

    /// A transfer of which these chunks are done.
    pub open spec fn resumed(
        transfer_id: String,
        file_name: String,
        total_bytes: u64,
        acked: Set<u64>,
    ) -> HandleView {
        HandleView {
            transfer_id,
            file_name,
            total_bytes,
            total_chunks: chunks_of(total_bytes as int) as u64,
            bytes_transferred: bytes_of_chunks(acked.len(), total_bytes) as u64,
            paused: false,
            cancelled: false,
            samples: Seq::empty(),
            acked,
        }
    }

    /// A transfer of which nothing is done yet.
    pub open spec fn fresh(transfer_id: String, file_name: String, total_bytes: u64) -> HandleView {
        HandleView::resumed(transfer_id, file_name, total_bytes, Set::empty())
    }

    /// The chunks still to be transferred.
    pub open spec fn pending(self) -> Seq<u64> {
        pending_below(self.total_chunks as nat, self.acked)
    }

    /// The transfer after a chunk is acknowledged. A chunk that was
    /// acknowledged before changes nothing.
    pub open spec fn after_ack(self, chunk_index: u64, chunk_len: u64, now: u64) -> HandleView {
        if self.acked.contains(chunk_index) {
            self
        } else {
            let total = ((self.bytes_transferred + chunk_len) % 18446744073709551616) as u64;
            HandleView {
                bytes_transferred: total,
                samples: recent(self.samples.push((now, total)), now),
                acked: self.acked.insert(chunk_index),
                ..self
            }
        }
    }

    /// The window that the current speed is computed from: there is none before
    /// two samples, or where no time passed between the first and the last.
    pub open spec fn speed_window(self) -> Option<SpeedWindow> {
        let s = self.samples;
        if s.len() < 2 || s.last().0 <= s.first().0 {
            None
        } else {
            Some(
                SpeedWindow {
                    elapsed_nanos: (s.last().0 - s.first().0) as u64,
                    first_bytes: s.first().1,
                    last_bytes: s.last().1,
                },
            )
        }
    }

    /// The snapshot of the transfer in a given state.
    pub open spec fn snapshot(self, state: TransferState) -> TransferProgress {
        TransferProgress {
            transfer_id: self.transfer_id,
            file_name: self.file_name,
            total_bytes: self.total_bytes,
            bytes_transferred: self.bytes_transferred,
            remaining_bytes: if self.bytes_transferred < self.total_bytes {
                (self.total_bytes - self.bytes_transferred) as u64
            } else {
                0
            },
            window: self.speed_window(),
            state,
        }
    }
}

impl TransferHandle {
    pub fn new(transfer_id: String, file_name: String, total_bytes: u64) -> (r: Self)
        ensures
            r@ == HandleView::fresh(transfer_id, file_name, total_bytes),
            r@.wf(),
            r@.bytes_transferred == 0,
    {
        let r = TransferHandle {
            transfer_id,
            file_name,
            total_bytes,
            total_chunks: chunk_count(total_bytes),
            bytes_transferred: 0,
            paused: false,
            cancelled: false,
            speed_samples: Vec::new(),
            acked_chunks: HashSet::new(),
        };
        assert(r@ =~= HandleView::fresh(transfer_id, file_name, total_bytes));
        r
    }

    /// Restores the handle of an interrupted transfer from the chunks that were
    /// acknowledged before; those are not transferred again.
    pub fn resume_from_manifest(
        transfer_id: String,
        file_name: String,
        total_bytes: u64,
        already_acked: HashSet<u64>,
    ) -> (r: Self)
        ensures
            r@ == HandleView::resumed(transfer_id, file_name, total_bytes, already_acked@),
            r@.wf(),
    {
        let mut handle: TransferHandle = Self::new(transfer_id, file_name, total_bytes);
        handle.bytes_transferred = acked_bytes(already_acked.len(), total_bytes);
        handle.acked_chunks = already_acked;
        handle
    }

    pub fn transfer_id(&self) -> (s: &str)
        ensures
            s@ == self@.transfer_id@,
    {
        self.transfer_id.as_str()
    }

    pub fn total_chunks(&self) -> (n: u64)
        ensures
            n == self@.total_chunks,
    {
        self.total_chunks
    }

    pub fn is_paused(&self) -> (b: bool)
        ensures
            b == self@.paused,
    {
        self.paused
    }

    pub fn is_cancelled(&self) -> (b: bool)
        ensures
            b == self@.cancelled,
    {
        self.cancelled
    }

    pub fn pause(&mut self)
        ensures
            final(self)@ == (HandleView { paused: true, ..old(self)@ }),
    {
        self.paused = true;
    }

    pub fn resume(&mut self)
        ensures
            final(self)@ == (HandleView { paused: false, ..old(self)@ }),
    {
        self.paused = false;
    }

    pub fn cancel(&mut self)
        ensures
            final(self)@ == (HandleView { cancelled: true, ..old(self)@ }),
    {
        self.cancelled = true;
    }

    /// The chunks that still need transferring, in ascending order.
    pub fn pending_chunk_indices(&self) -> (r: Vec<u64>)
        ensures
            r@ == self@.pending(),
    {
        let mut out: Vec<u64> = Vec::new();
        let mut i: u64 = 0;
        while i < self.total_chunks
            invariant
                i <= self.total_chunks,
                out@ == pending_below(i as nat, self.acked_chunks@),
            decreases self.total_chunks - i,
        {
            if !self.acked_chunks.contains(&i) {
                out.push(i);
            }
            i = i + 1;
        }
        out
    }

    /// Marks a chunk as transferred at time `now_nanos`.
    pub fn mark_chunk_acked(&mut self, chunk_index: u64, chunk_len: u64, now_nanos: u64)
        ensures
            final(self)@ == old(self)@.after_ack(chunk_index, chunk_len, now_nanos),
    {
        if self.acked_chunks.insert(chunk_index) {
            let new_total: u64 = self.bytes_transferred.wrapping_add(chunk_len);
            self.bytes_transferred = new_total;
            self.record_speed_sample(new_total, now_nanos);
        } else {
            assert(self.acked_chunks@ =~= old(self).acked_chunks@);
        }
    }

    /// Adds a sample and drops those that are too old.
    fn record_speed_sample(&mut self, cumulative_bytes: u64, now: u64)
        ensures
            final(self)@ == (HandleView {
                samples: recent(old(self)@.samples.push((now, cumulative_bytes)), now),
                ..old(self)@
            }),
    {
        self.speed_samples.push((now, cumulative_bytes));
        let ghost all = self.speed_samples@;
        let mut kept: Vec<(u64, u64)> = Vec::new();
        let mut i: usize = 0;
        assert(all.take(0) =~= Seq::empty());
        while i < self.speed_samples.len()
            invariant
                all == self.speed_samples@,
                i <= all.len(),
                kept@ == recent(all.take(i as int), now),
            decreases all.len() - i,
        {
            let sample: (u64, u64) = self.speed_samples[i];
            assert(all.take(i + 1).drop_last() =~= all.take(i as int));
            if now < sample.0 || now - sample.0 < SPEED_WINDOW_NANOS {
                kept.push(sample);
            }
            i = i + 1;
        }
        assert(all.take(all.len() as int) =~= all);
        self.speed_samples = kept;
    }

    /// The chunks that are acknowledged.
    pub fn acked_chunk_set(&self) -> (r: HashSet<u64>)
        ensures
            r@ == self@.acked,
    {
        let mut out: HashSet<u64> = HashSet::new();
        for c in it: self.acked_chunks.iter()
            invariant
                out@ == it.seq().take(it.index()).unref().to_set(),
                it.seq().unref().to_set() == self.acked_chunks@,
                it.index() == it.seq().len() ==> out@ == self.acked_chunks@,
        {
            let ghost seen = it.seq().take(it.index()).unref();
            assert(it.seq().take(it.index() + 1).unref() =~= seen.push(*c));
            assert(it.seq().take(it.seq().len() as int) =~= it.seq());
            proof {
                seen.lemma_push_to_set_commute(*c);
            }
            out.insert(*c);
        }
        out
    }

    /// A snapshot for the user interface.
    pub fn progress(&self, state: TransferState) -> (r: TransferProgress)
        ensures
            r == self@.snapshot(state),
    {
        TransferProgress {
            transfer_id: self.transfer_id.clone(),
            file_name: self.file_name.clone(),
            total_bytes: self.total_bytes,
            bytes_transferred: self.bytes_transferred,
            remaining_bytes: self.total_bytes.saturating_sub(self.bytes_transferred),
            window: self.current_window(),
            state,
        }
    }

    fn current_window(&self) -> (r: Option<SpeedWindow>)
        ensures
            r == self@.speed_window(),
    {
        let n: usize = self.speed_samples.len();
        if n < 2 {
            return None;
        }
        let first: (u64, u64) = self.speed_samples[0];
        let last: (u64, u64) = self.speed_samples[n - 1];
        if last.0 <= first.0 {
            return None;
        }
        Some(
            SpeedWindow {
                elapsed_nanos: last.0 - first.0,
                first_bytes: first.1,
                last_bytes: last.1,
            },
        )
    }
}

/// Acknowledging a chunk twice counts it once.
pub proof fn ack_counts_once(h: HandleView, chunk: u64, len: u64, now: u64, len2: u64, later: u64)
    ensures
        h.after_ack(chunk, len, now).after_ack(chunk, len2, later) == h.after_ack(chunk, len, now),
{
}

/// Acknowledging a chunk takes it off the pending chunks and leaves the others.
pub proof fn ack_removes_from_pending(h: HandleView, chunk: u64, len: u64, now: u64)
    ensures
        forall|c: u64| #[trigger]
            h.after_ack(chunk, len, now).pending().contains(c) <==> c != chunk
                && h.pending().contains(c),
{
    pending_is_exact(h.total_chunks as nat, h.acked);
    pending_is_exact(h.total_chunks as nat, h.after_ack(chunk, len, now).acked);
    assert forall|c: u64| #[trigger]
        h.after_ack(chunk, len, now).pending().contains(c) <==> c != chunk && h.pending().contains(
            c,
        ) by {
        assert(h.pending().contains(c) <==> c < h.total_chunks && !h.acked.contains(c));
    }
}

/// A resumed transfer leaves out exactly the chunks that were acknowledged.
pub proof fn resume_skips_acknowledged(
    transfer_id: String,
    file_name: String,
    total_bytes: u64,
    acked: Set<u64>,
)
    ensures
        forall|c: u64| #[trigger]
            HandleView::resumed(transfer_id, file_name, total_bytes, acked).pending().contains(c)
                <==> c < chunks_of(total_bytes as int) && !acked.contains(c),
{
    let h = HandleView::resumed(transfer_id, file_name, total_bytes, acked);
    pending_is_exact(h.total_chunks as nat, acked);
}

/// What the loop that hands out chunks does next.
#[derive(Debug, Clone, Copy, PartialEq, Eq, Structural)]
pub enum SendStep {
    /// Wait a while and ask again.
    Wait,
    /// Read, frame and send the chunk with this index.
    Chunk(u64),
    /// No chunk is left to hand out: wait for those in flight.
    Drain,
}

/// The order in which a sender hands out the pending chunks to its workers. A
/// cancelled transfer is an error.
pub struct SenderSchedule {
    pub pending: Vec<u64>,
    pub next: usize,
}

impl SenderSchedule {
    pub open spec fn wf(self) -> bool {
        self.next <= self.pending@.len()
    }

    pub fn new(handle: &TransferHandle) -> (r: Self)
        ensures
            r.wf(),
            r.pending@ == handle@.pending(),
            r.next == 0,
    {
        SenderSchedule { pending: handle.pending_chunk_indices(), next: 0 }
    }

    /// The next step, given the flags of the transfer. Waits while it is
    /// paused; a cancellation ends the work while chunks are left.
    pub fn step(&mut self, cancelled: bool, paused: bool) -> (r: Result<SendStep>)
        requires
            old(self).wf(),
        ensures
            final(self).wf(),
            final(self).pending == old(self).pending,
            match r {
                Ok(SendStep::Drain) => {
                    &&& old(self).next == old(self).pending@.len()
                    &&& final(self).next == old(self).next
                },
                Ok(SendStep::Wait) => {
                    &&& old(self).next < old(self).pending@.len()
                    &&& !cancelled && paused
                    &&& final(self).next == old(self).next
                },
                Ok(SendStep::Chunk(c)) => {
                    &&& old(self).next < old(self).pending@.len()
                    &&& !cancelled && !paused
                    &&& c == old(self).pending@[old(self).next as int]
                    &&& final(self).next == old(self).next + 1
                },
                Err(e) => {
                    &&& old(self).next < old(self).pending@.len()
                    &&& cancelled
                    &&& final(self).next == old(self).next
                    &&& e@ == ErrorView::InvalidState("transfer cancelled"@)
                },
            },
    {
        if self.next == self.pending.len() {
            return Ok(SendStep::Drain);
        }
        if cancelled {
            return Err(CoreError::invalid_state("transfer cancelled"));
        }
        if paused {
            return Ok(SendStep::Wait);
        }
        let chunk: u64 = self.pending[self.next];
        self.next = self.next + 1;
        Ok(SendStep::Chunk(chunk))
    }
}

} // verus!
