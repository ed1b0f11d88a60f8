//! Receiving files: accepting an offer, placing the chunks that arrive, and
//! noticing the end.
use std::collections::HashSet;
use vstd::prelude::*;

use super::{
    no_session_text, Action, ConnectionManager, IncomingTransfer, IncomingView, ManagerView,
    SinkCall,
};
use crate::crypto::sha256_of;
use crate::error::{ErrorView, Result};
use crate::protocol::{FileChunkMessage, FileOffer, ProtocolMessage};
use crate::transfer::{
    chunk_len, chunk_offset, chunks_of, nothing_pending_means_complete, pending_is_exact,
    ChunkFrame, HandleView, TransferHandle, TransferState, CHUNK_SIZE,
};

verus! {

broadcast use vstd::std_specs::hash::group_hash_axioms;

/// A chunk to be written to its place in the destination file.
pub struct ChunkWrite {
    pub transfer_id: String,
    pub chunk_index: u64,
    pub dest_path: String,
    pub offset: u64,
    pub payload: Vec<u8>,
}

/// What is to be done with a chunk that arrived.
pub enum ChunkStep {
    /// Its bytes are not what its digest says: drop it.
    Corrupt,
    /// No transfer of this name was accepted: drop it.
    Unknown,
    /// The transfer was cancelled: drop it.
    Cancelled,
    /// Its place is beyond every file: drop it.
    OutOfRange,
    /// Write it, and report back when that is done.
    Write(ChunkWrite),
}

/// The step for a chunk is this one.
pub open spec fn chunk_step_matches(
    v: ManagerView,
    chunk: FileChunkMessage,
    step: ChunkStep,
) -> bool {
    if chunk.checksum_sha256@ != sha256_of(chunk.payload@) {
        step is Corrupt
    } else if !v.incoming.contains_key(chunk.transfer_id@) {
        step is Unknown
    } else if v.incoming[chunk.transfer_id@].handle.cancelled {
        step is Cancelled
    } else if chunk.chunk_index * CHUNK_SIZE > u64::MAX {
        step is OutOfRange
    } else {
        step == ChunkStep::Write(
            ChunkWrite {
                transfer_id: chunk.transfer_id,
                chunk_index: chunk.chunk_index,
                dest_path: v.incoming[chunk.transfer_id@].dest_path,
                offset: (chunk.chunk_index * CHUNK_SIZE) as u64,
                payload: chunk.payload,
            },
        )
    }
}

impl ManagerView {
    /// The handle of an incoming transfer after a chunk was written.
    pub open spec fn handle_after_chunk(
        self,
        transfer_id: Seq<char>,
        chunk_index: u64,
        chunk_len: u64,
        now: u64,
    ) -> HandleView {
        self.incoming[transfer_id].handle.after_ack(chunk_index, chunk_len, now)
    }

    /// The state after a chunk was written: the transfer is one chunk further,
    /// and gone when it was the last one.
    pub open spec fn after_chunk(
        self,
        transfer_id: Seq<char>,
        chunk_index: u64,
        chunk_len: u64,
        now: u64,
    ) -> ManagerView {
        if self.incoming.contains_key(transfer_id) {
            let handle = self.handle_after_chunk(transfer_id, chunk_index, chunk_len, now);
            ManagerView {
                incoming: if handle.pending().len() == 0 {
                    self.incoming.remove(transfer_id)
                } else {
                    self.incoming.insert(
                        transfer_id,
                        IncomingView { handle, ..self.incoming[transfer_id] },
                    )
                },
                ..self
            }
        } else {
            self
        }
    }

    /// What a written chunk leads to: it is recorded, reported and
    /// acknowledged; and so is the end of the transfer, when it was the last.
    pub open spec fn chunk_reaction(
        self,
        from: String,
        transfer_id: String,
        chunk_index: u64,
        chunk_len: u64,
        now: u64,
    ) -> Seq<Action> {
        if self.incoming.contains_key(transfer_id@) {
            let handle = self.handle_after_chunk(transfer_id@, chunk_index, chunk_len, now);
            seq![
                Action::StoreChunkAck { transfer_id, chunk_index },
                Action::Notify(
                    SinkCall::TransferProgress(handle.snapshot(TransferState::Active)),
                ),
            ] + self.send_if_connected(
                from@,
                ProtocolMessage::FileChunkAck { transfer_id, chunk_index },
            ) + (if handle.pending().len() == 0 {
                seq![
                    Action::StoreTransferState {
                        transfer_id,
                        state: TransferState::Completed,
                        bytes_transferred: handle.bytes_transferred,
                    },
                    Action::Notify(SinkCall::TransferComplete { transfer_id }),
                ] + self.send_if_connected(
                    from@,
                    ProtocolMessage::FileTransferComplete { transfer_id },
                )
            } else {
                Seq::empty()
            })
        } else {
            Seq::empty()
        }
    }
}

/// What becomes of the destination of a file when its offer is accepted.
#[derive(Debug, Clone, Copy, PartialEq, Eq, Structural)]
pub enum Setup {
    /// Make it anew, at the full size of the file.
    Create,
    /// Keep what it holds: chunks of the file were written to it before.
    Keep,
}

/// The setup of the destination, given the chunks that were acknowledged in an
/// earlier run. Those are not sent again, so their bytes have to stay.
pub fn destination_setup(already_acked: &HashSet<u64>) -> (r: Setup)
    ensures
        r is Keep <==> already_acked@.len() > 0,
{
    if already_acked.len() == 0 {
        Setup::Create
    } else {
        Setup::Keep
    }
}

/// The bytes of a destination after its setup: `before` is what it held, and
/// `size` the size of the file.
pub open spec fn set_up(setup: Setup, before: Seq<u8>, size: nat) -> Seq<u8> {
    Seq::new(
        size,
        |i: int|
            if setup is Keep && i < before.len() {
                before[i]
            } else {
                0
            },
    )
}

/// A file that is accepted again keeps what it had received: every byte of
/// every chunk that was acknowledged before, and that is not expected again, is
/// still in place.
pub proof fn received_chunks_survive_acceptance(
    offer: FileOffer,
    acked: Set<u64>,
    setup: Setup,
    before: Seq<u8>,
    chunk: u64,
    position: int,
)
    requires
        acked.finite(),
        setup is Keep <==> acked.len() > 0,
        before.len() == offer.file_size,
        acked.contains(chunk),
        chunk * CHUNK_SIZE <= position < chunk * CHUNK_SIZE + chunk_len(
            offer.file_size as int,
            chunk as int,
        ),
    ensures
        set_up(setup, before, offer.file_size as nat)[position] == before[position],
        !HandleView::resumed(
            offer.transfer_id,
            offer.file_name,
            offer.file_size,
            acked,
        ).pending().contains(chunk),
{
    assert(acked.len() != 0);
    pending_is_exact(chunks_of(offer.file_size as int) as nat, acked);
}

/// Which way a transfer goes.
#[derive(Debug, Clone, Copy, PartialEq, Eq, Structural)]
pub enum Direction {
    Send,
    Receive,
}

impl Direction {
    pub open spec fn name(self) -> Seq<char> {
        match self {
            Direction::Send => "send"@,
            Direction::Receive => "receive"@,
        }
    }

    pub fn as_str(&self) -> (s: &'static str)
        ensures
            s@ == self.name(),
    {
        match self {
            Direction::Send => "send",
            Direction::Receive => "receive",
        }
    }
}

/// A transfer as it is entered in the database.
pub struct TransferRecord {
    pub transfer_id: String,
    pub message_id: String,
    pub file_name: String,
    pub file_size: u64,
    pub mime_type: String,
    pub total_chunks: u64,
    pub chunk_size: u64,
    pub direction: Direction,
    pub local_path: String,
}

/// An accepted offer: the entry for the database, and the answer to the peer.
pub struct AcceptedFile {
    pub record: TransferRecord,
    pub answer: Result<Action>,
}

impl ConnectionManager {
    /// Judges a chunk that arrived: its bytes have to match its digest, and
    /// its transfer has to be one that was accepted and not cancelled since.
    pub fn handle_incoming_chunk(&self, chunk: FileChunkMessage) -> (r: ChunkStep)
        ensures
            chunk_step_matches(self@, chunk, r),
    {
        let frame: ChunkFrame = ChunkFrame {
            chunk_index: chunk.chunk_index,
            payload: chunk.payload,
            checksum: chunk.checksum_sha256,
        };
        if !frame.verify() {
            return ChunkStep::Corrupt;
        }
        match self.incoming_transfers.get(&chunk.transfer_id) {
            Some(t) => {
                assert(self@.incoming[chunk.transfer_id@] == t@);
                if t.handle.is_cancelled() {
                    return ChunkStep::Cancelled;
                }
                match chunk_offset(chunk.chunk_index) {
                    Some(offset) => ChunkStep::Write(
                        ChunkWrite {
                            transfer_id: chunk.transfer_id,
                            chunk_index: chunk.chunk_index,
                            dest_path: t.dest_path.clone(),
                            offset,
                            payload: frame.payload,
                        },
                    ),
                    None => ChunkStep::OutOfRange,
                }
            },
            None => ChunkStep::Unknown,
        }
    }

    /// The destination of a file that is being received already, and not
    /// cancelled: there is nothing to set up for it, or to accept again.
    pub fn being_received(&self, transfer_id: &String) -> (r: Option<String>)
        ensures
            r == (if self@.incoming.contains_key(transfer_id@)
                && !self@.incoming[transfer_id@].handle.cancelled {
                Some(self@.incoming[transfer_id@].dest_path)
            } else {
                None
            }),
    {
        match self.incoming_transfers.get(transfer_id) {
            Some(t) => {
                assert(self@.incoming[transfer_id@] == t@);
                if t.handle.is_cancelled() {
                    None
                } else {
                    Some(t.dest_path.clone())
                }
            },
            None => None,
        }
    }

    /// A chunk has been written to disk.
    pub fn chunk_written(
        &mut self,
        from_device_id: &String,
        transfer_id: &String,
        chunk_index: u64,
        chunk_len: u64,
        now_nanos: u64,
    ) -> (r: Vec<Action>)
        requires
            old(self)@.wf(),
        ensures
            final(self)@.wf(),
            final(self)@ == old(self)@.after_chunk(transfer_id@, chunk_index, chunk_len, now_nanos),
            r@ == old(self)@.chunk_reaction(
                *from_device_id,
                *transfer_id,
                chunk_index,
                chunk_len,
                now_nanos,
            ),
    {
        let mut actions: Vec<Action> = Vec::new();
        let mut t: IncomingTransfer = match self.incoming_transfers.remove(transfer_id) {
            Some(t) => t,
            None => {
                assert(self@ =~= old(self)@);
                return actions;
            },
        };
        t.handle.mark_chunk_acked(chunk_index, chunk_len, now_nanos);
        let ghost handle = t.handle@;
        assert(handle == old(self)@.handle_after_chunk(
            transfer_id@,
            chunk_index,
            chunk_len,
            now_nanos,
        ));
        actions.push(Action::StoreChunkAck { transfer_id: transfer_id.clone(), chunk_index });
        actions.push(
            Action::Notify(SinkCall::TransferProgress(t.handle.progress(TransferState::Active))),
        );
        self.push_send(
            &mut actions,
            from_device_id,
            ProtocolMessage::FileChunkAck { transfer_id: transfer_id.clone(), chunk_index },
        );
        if t.handle.pending_chunk_indices().len() == 0 {
            let bytes_transferred: u64 = t.handle.progress(
                TransferState::Completed,
            ).bytes_transferred;
            actions.push(
                Action::StoreTransferState {
                    transfer_id: transfer_id.clone(),
                    state: TransferState::Completed,
                    bytes_transferred,
                },
            );
            actions.push(
                Action::Notify(SinkCall::TransferComplete { transfer_id: transfer_id.clone() }),
            );
            self.push_send(
                &mut actions,
                from_device_id,
                ProtocolMessage::FileTransferComplete { transfer_id: transfer_id.clone() },
            );
        } else {
            self.incoming_transfers.insert(transfer_id.clone(), t);
        }
        assert(self@ =~= old(self)@.after_chunk(transfer_id@, chunk_index, chunk_len, now_nanos));
        assert(actions@ =~= old(self)@.chunk_reaction(
            *from_device_id,
            *transfer_id,
            chunk_index,
            chunk_len,
            now_nanos,
        ));
        actions
    }

    /// Accepts the offer of a file whose destination has been set up as
    /// [`destination_setup`] says. Chunks
    /// that were acknowledged before, in an earlier run, are not expected
    /// again.
    pub fn accept_file(
        &mut self,
        from_device_id: &String,
        offer: &FileOffer,
        already_acked: HashSet<u64>,
        dest_path: String,
    ) -> (r: AcceptedFile)
        requires
            old(self)@.wf(),
        ensures
            final(self)@.wf(),
            final(self)@ == (ManagerView {
                incoming: old(self)@.incoming.insert(
                    offer.transfer_id@,
                    IncomingView {
                        dest_path,
                        handle: HandleView::resumed(
                            offer.transfer_id,
                            offer.file_name,
                            offer.file_size,
                            already_acked@,
                        ),
                    },
                ),
                ..old(self)@
            }),
            r.record == (TransferRecord {
                transfer_id: offer.transfer_id,
                message_id: offer.message_id,
                file_name: offer.file_name,
                file_size: offer.file_size,
                mime_type: offer.mime_type,
                total_chunks: offer.total_chunks,
                chunk_size: offer.chunk_size,
                direction: Direction::Receive,
                local_path: dest_path,
            }),
            match r.answer {
                Ok(a) => {
                    &&& old(self)@.sessions.contains_key(from_device_id@)
                    &&& a == (Action::Send {
                        link: old(self)@.sessions[from_device_id@],
                        message: ProtocolMessage::FileAccept { transfer_id: offer.transfer_id },
                    })
                },
                Err(e) => {
                    &&& !old(self)@.sessions.contains_key(from_device_id@)
                    &&& e@ == ErrorView::NotFound(no_session_text(from_device_id@))
                },
            },
    {
        let handle: TransferHandle = if already_acked.is_empty() {
            assert(already_acked@ =~= Set::empty());
            TransferHandle::new(
                offer.transfer_id.clone(),
                offer.file_name.clone(),
                offer.file_size,
            )
        } else {
            TransferHandle::resume_from_manifest(
                offer.transfer_id.clone(),
                offer.file_name.clone(),
                offer.file_size,
                already_acked,
            )
        };
        let record = TransferRecord {
            transfer_id: offer.transfer_id.clone(),
            message_id: offer.message_id.clone(),
            file_name: offer.file_name.clone(),
            file_size: offer.file_size,
            mime_type: offer.mime_type.clone(),
            total_chunks: offer.total_chunks,
            chunk_size: offer.chunk_size,
            direction: Direction::Receive,
            local_path: dest_path.clone(),
        };
        let ghost view = IncomingView { dest_path, handle: handle@ };
        self.incoming_transfers.insert(
            offer.transfer_id.clone(),
            IncomingTransfer { dest_path, handle },
        );
        assert(self@ =~= (ManagerView {
            incoming: old(self)@.incoming.insert(offer.transfer_id@, view),
            ..old(self)@
        }));
        let answer: Result<Action> = self.send_to(
            from_device_id,
            ProtocolMessage::FileAccept { transfer_id: offer.transfer_id.clone() },
        );
        AcceptedFile { record, answer }
    }

    pub fn reject_file(
        &self,
        from_device_id: &String,
        transfer_id: &String,
        reason: &String,
    ) -> (r: Result<Action>)
        ensures
            match r {
                Ok(a) => {
                    &&& self@.sessions.contains_key(from_device_id@)
                    &&& a == (Action::Send {
                        link: self@.sessions[from_device_id@],
                        message: ProtocolMessage::FileReject {
                            transfer_id: *transfer_id,
                            reason: *reason,
                        },
                    })
                },
                Err(e) => {
                    &&& !self@.sessions.contains_key(from_device_id@)
                    &&& e@ == ErrorView::NotFound(no_session_text(from_device_id@))
                },
            },
    {
        self.send_to(
            from_device_id,
            ProtocolMessage::FileReject {
                transfer_id: transfer_id.clone(),
                reason: reason.clone(),
            },
        )
    }

    /// Accepts a whole folder, and with it every file of the folder: the peer
    /// counts them as accepted. Their offers still come one by one, and are
    /// accepted without asking the user again.
    pub fn accept_folder(&self, from_device_id: &String, folder_batch_id: &String) -> (r: Result<
        Action,
    >)
        ensures
            match r {
                Ok(a) => {
                    &&& self@.sessions.contains_key(from_device_id@)
                    &&& a == (Action::Send {
                        link: self@.sessions[from_device_id@],
                        message: ProtocolMessage::FolderAccept {
                            folder_batch_id: *folder_batch_id,
                        },
                    })
                },
                Err(e) => {
                    &&& !self@.sessions.contains_key(from_device_id@)
                    &&& e@ == ErrorView::NotFound(no_session_text(from_device_id@))
                },
            },
    {
        self.send_to(
            from_device_id,
            ProtocolMessage::FolderAccept { folder_batch_id: folder_batch_id.clone() },
        )
    }

    pub fn reject_folder(
        &self,
        from_device_id: &String,
        folder_batch_id: &String,
        reason: &String,
    ) -> (r: Result<Action>)
        ensures
            match r {
                Ok(a) => {
                    &&& self@.sessions.contains_key(from_device_id@)
                    &&& a == (Action::Send {
                        link: self@.sessions[from_device_id@],
                        message: ProtocolMessage::FolderReject {
                            folder_batch_id: *folder_batch_id,
                            reason: *reason,
                        },
                    })
                },
                Err(e) => {
                    &&& !self@.sessions.contains_key(from_device_id@)
                    &&& e@ == ErrorView::NotFound(no_session_text(from_device_id@))
                },
            },
    {
        self.send_to(
            from_device_id,
            ProtocolMessage::FolderReject {
                folder_batch_id: folder_batch_id.clone(),
                reason: reason.clone(),
            },
        )
    }
}

/// A transfer is reported complete exactly when every chunk of the file has
/// been written.
pub proof fn completion_needs_every_chunk(
    v: ManagerView,
    transfer_id: Seq<char>,
    chunk_index: u64,
    chunk_len: u64,
    now: u64,
)
    requires
        v.incoming.contains_key(transfer_id),
    ensures
        !v.after_chunk(transfer_id, chunk_index, chunk_len, now).incoming.contains_key(transfer_id)
            <==> (forall|c: u64|
            c < v.incoming[transfer_id].handle.total_chunks ==> c == chunk_index
                || v.incoming[transfer_id].handle.acked.contains(c)),
{
    let h = v.incoming[transfer_id].handle;
    let after = v.handle_after_chunk(transfer_id, chunk_index, chunk_len, now);
    nothing_pending_means_complete(h.total_chunks as nat, after.acked);
    assert forall|c: u64| after.acked.contains(c) <==> c == chunk_index || h.acked.contains(c) by {}
}

/// A chunk whose bytes do not match its digest is never written, and neither is
/// one of a transfer that was not accepted or is cancelled.
pub proof fn corrupt_chunk_is_dropped(v: ManagerView, chunk: FileChunkMessage, step: ChunkStep)
    requires
        chunk_step_matches(v, chunk, step),
        step is Write,
    ensures
        chunk.checksum_sha256@ == sha256_of(chunk.payload@),
        v.incoming.contains_key(chunk.transfer_id@),
        !v.incoming[chunk.transfer_id@].handle.cancelled,
{
}

} // verus!
