//! Sending files and folders: offering, running, ending and resuming the
//! transfers of this device.
use std::collections::HashSet;
use vstd::prelude::*;

use super::incoming::{chunk_step_matches, ChunkStep, ChunkWrite, Direction, TransferRecord};
use super::{
    lemma_listing_kept, no_session_text, Action, ConnectionManager, ManagerView, OutgoingTransfer,
    SinkCall,
};
use crate::crypto;
use crate::crypto::sha256_of;
use crate::error::{CoreError, ErrorView, Result};
use crate::protocol::{FileChunkMessage, FileOffer, ProtocolMessage};
use crate::text::{concat3, has_prefix, str_equal};
use crate::transfer::{
    pending_below, ChunkFrame, FileSource, HandleView, SendStep, TransferHandle, TransferState,
    CHUNK_SIZE,
};

verus! {

broadcast use vstd::std_specs::hash::group_hash_axioms;

/// How long the decision on an offer is waited for, in seconds.
pub const WAIT_FOR_ACCEPT_SECS: u64 = 120;

/// What a file offer says of the file, apart from the transfer's own name.
pub struct FileDetails {
    pub source: FileSource,
    pub file_name: String,
    pub file_size: u64,
    pub mime_type: String,
    pub message_id: String,
    pub conversation_id: String,
    pub relative_path: String,
    pub folder_batch_id: Option<String>,
}

/// An offered file: the number of its handle, whether the peer has accepted it
/// with its folder, the entry for the database, and the offer to send.
pub struct OfferedFile {
    pub transfer_id: String,
    pub handle: u64,
    pub accepted: bool,
    pub record: TransferRecord,
    pub offer: Result<Action>,
}

/// The offer of a file.
pub open spec fn offer_of(transfer_id: String, d: FileDetails, total_chunks: u64) -> FileOffer {
    FileOffer {
        transfer_id,
        message_id: d.message_id,
        conversation_id: d.conversation_id,
        file_name: d.file_name,
        file_size: d.file_size,
        mime_type: d.mime_type,
        total_chunks,
        chunk_size: CHUNK_SIZE,
        relative_path: d.relative_path,
        folder_batch_id: d.folder_batch_id,
    }
}

impl ManagerView {
    /// The state after a file was offered under this name. A decision is
    /// awaited, unless the folder of the file was accepted.
    pub open spec fn after_offer(self, transfer_id: String, d: FileDetails) -> ManagerView {
        ManagerView {
            outgoing: self.outgoing.insert(
                transfer_id@,
                OutgoingTransfer {
                    file_source: d.source,
                    handle: self.next_id,
                    awaiting_decision: !self.folder_accepted(d.folder_batch_id),
                },
            ),
            handles: self.handles.insert(
                self.next_id,
                HandleView::fresh(transfer_id, d.file_name, d.file_size),
            ),
            next_id: (self.next_id + 1) as u64,
            ..self
        }
    }

    /// The state without a transfer and its handle.
    pub open spec fn without_handle(self, handle: u64) -> ManagerView {
        if self.handles.contains_key(handle) {
            ManagerView {
                outgoing: self.outgoing.remove(self.handles[handle].transfer_id@),
                handles: self.handles.remove(handle),
                ..self
            }
        } else {
            self
        }
    }

    /// What is recorded of a transfer that will not take place.
    pub open spec fn failure_record(self, handle: u64) -> Seq<Action> {
        if self.handles.contains_key(handle) {
            seq![
                Action::StoreTransferState {
                    transfer_id: self.handles[handle].transfer_id,
                    state: TransferState::Failed,
                    bytes_transferred: self.handles[handle].bytes_transferred,
                },
            ]
        } else {
            Seq::empty()
        }
    }

    /// The state in which a transfer has ended: cancelled if its flag is set.
    pub open spec fn final_state(self, handle: u64) -> TransferState {
        if self.handles[handle].cancelled {
            TransferState::Cancelled
        } else {
            TransferState::Completed
        }
    }

    /// What the end of an outgoing transfer leads to: a peer that is connected
    /// is told of a cancellation, the final state is recorded and reported.
    pub open spec fn end_reaction(self, peer: Seq<char>, handle: u64) -> Seq<Action> {
        let h = self.handles[handle];
        (if h.cancelled {
            self.send_if_connected(
                peer,
                ProtocolMessage::FileTransferCancelled {
                    transfer_id: h.transfer_id,
                    by_device_id: self.device_id,
                },
            )
        } else {
            Seq::empty()
        }) + seq![
            Action::StoreTransferState {
                transfer_id: h.transfer_id,
                state: self.final_state(handle),
                bytes_transferred: h.bytes_transferred,
            },
            Action::Notify(SinkCall::TransferProgress(h.snapshot(self.final_state(handle)))),
        ]
    }
}

/// The work on one outgoing transfer: which chunks are left to hand out.
pub struct OutgoingRun {
    pub transfer_id: String,
    pub link: u64,
    pub handle: u64,
    pub pending: Vec<u64>,
    pub next: usize,
}

impl OutgoingRun {
    pub open spec fn wf(self) -> bool {
        self.next <= self.pending@.len()
    }

    /// The next step. A cancelled transfer hands out no more chunks, and a
    /// paused one none until the pause is over.
    pub open spec fn next_step(self, cancelled: bool, paused: bool) -> SendStep {
        if self.next >= self.pending@.len() || cancelled {
            SendStep::Drain
        } else if paused {
            SendStep::Wait
        } else {
            SendStep::Chunk(self.pending@[self.next as int])
        }
    }

    pub fn step(&mut self, cancelled: bool, paused: bool) -> (r: SendStep)
        requires
            old(self).wf(),
        ensures
            final(self).wf(),
            r == old(self).next_step(cancelled, paused),
            final(self).transfer_id == old(self).transfer_id,
            final(self).link == old(self).link,
            final(self).handle == old(self).handle,
            final(self).pending == old(self).pending,
            final(self).next == (if r is Chunk {
                old(self).next + 1
            } else {
                old(self).next as int
            }),
    {
        if self.next == self.pending.len() || cancelled {
            return SendStep::Drain;
        }
        if paused {
            return SendStep::Wait;
        }
        let chunk: u64 = self.pending[self.next];
        self.next = self.next + 1;
        SendStep::Chunk(chunk)
    }
}

/// A transfer in the database that is not in a final state.
pub struct ResumableTransfer {
    pub transfer_id: String,
    pub peer_device_id: String,
    pub direction: String,
    pub local_path: String,
}

/// What becomes of an interrupted transfer when a peer connects.
#[derive(Debug, Clone, Copy, PartialEq, Eq, Structural)]
pub enum ResumeDecision {
    /// It is with another peer, or this device receives it.
    NotOurs,
    /// It is running already.
    Running,
    /// It came from a descriptor, which did not outlive its process.
    FdSource,
    /// It is sent again, from where it stopped.
    Resume,
}

/// The decision on an interrupted transfer when `device_id` connects.
pub open spec fn resume_decision_of(
    v: ManagerView,
    device_id: Seq<char>,
    t: ResumableTransfer,
) -> ResumeDecision {
    if t.peer_device_id@ != device_id || t.direction@ != "send"@ {
        ResumeDecision::NotOurs
    } else if v.outgoing.contains_key(t.transfer_id@) {
        ResumeDecision::Running
    } else if "fd:"@.is_prefix_of(t.local_path@) {
        ResumeDecision::FdSource
    } else {
        ResumeDecision::Resume
    }
}

/// The message with a chunk is this one.
pub open spec fn is_chunk_message(
    m: ProtocolMessage,
    transfer_id: String,
    chunk_index: u64,
    payload: Vec<u8>,
) -> bool {
    &&& m matches ProtocolMessage::FileChunk(c)
    &&& c.transfer_id == transfer_id
    &&& c.chunk_index == chunk_index
    &&& c.payload == payload
    &&& c.checksum_sha256@ == sha256_of(payload@)
}

/// The message with a chunk of a transfer, with the digest of its bytes.
pub fn chunk_message(transfer_id: &String, chunk_index: u64, payload: Vec<u8>) -> (m:
    ProtocolMessage)
    ensures
        is_chunk_message(m, *transfer_id, chunk_index, payload),
{
    let frame: ChunkFrame = ChunkFrame::new(chunk_index, payload);
    ProtocolMessage::FileChunk(
        FileChunkMessage {
            transfer_id: transfer_id.clone(),
            chunk_index,
            payload: frame.payload,
            checksum_sha256: frame.checksum,
        },
    )
}

/// What an offer that was not answered in time leads to: it is recorded as
/// failed, and the user is told that it was rejected.
pub open spec fn timeout_reaction(
    v: ManagerView,
    peer: String,
    handle: u64,
    actions: Seq<Action>,
) -> bool {
    if v.handles.contains_key(handle) {
        &&& actions.len() == 2
        &&& actions.take(1) == v.failure_record(handle)
        &&& actions[1] matches Action::Notify(
            SinkCall::FileReject { from_device_id, transfer_id, reason },
        )
        &&& from_device_id == peer
        &&& transfer_id == v.handles[handle].transfer_id
        &&& reason@ == "no answer from the peer"@
    } else {
        actions.len() == 0
    }
}

/// What holds of an offer that was made under the name `transfer_id`.
pub open spec fn offered(
    before: ManagerView,
    after: ManagerView,
    peer: String,
    d: FileDetails,
    r: OfferedFile,
) -> bool {
    let chunks = HandleView::fresh(r.transfer_id, d.file_name, d.file_size).total_chunks;
    &&& after == before.after_offer(r.transfer_id, d)
    &&& r.handle == before.next_id
    &&& r.accepted == before.folder_accepted(d.folder_batch_id)
    &&& r.record.transfer_id == r.transfer_id
    &&& r.record.message_id == d.message_id
    &&& r.record.file_name == d.file_name
    &&& r.record.file_size == d.file_size
    &&& r.record.mime_type == d.mime_type
    &&& r.record.total_chunks == chunks
    &&& r.record.chunk_size == CHUNK_SIZE
    &&& r.record.direction is Send
    &&& r.record.local_path@ == d.source.stored_path()
    &&& match r.offer {
        Ok(a) => {
            &&& before.sessions.contains_key(peer@)
            &&& a == (Action::Send {
                link: before.sessions[peer@],
                message: ProtocolMessage::FileOffer(offer_of(r.transfer_id, d, chunks)),
            })
        },
        Err(e) => {
            &&& !before.sessions.contains_key(peer@)
            &&& e@ == ErrorView::NotFound(no_session_text(peer@))
        },
    }
}

impl ConnectionManager {
    /// Offers a file to a peer under a fresh name. The file is sent when the
    /// peer accepts: at once, if it has accepted the folder of the file;
    /// otherwise the decision comes as an [`Action::ResolveOffer`] with the
    /// number of the handle. An offer that cannot be sent stays listed.
    pub fn send_file(&mut self, peer_device_id: &String, details: FileDetails) -> (r: OfferedFile)
        requires
            old(self)@.wf(),
            old(self)@.next_id < u64::MAX,
        ensures
            final(self)@.wf(),
            r.transfer_id@.len() == 36,
            offered(old(self)@, final(self)@, *peer_device_id, details, r),
    {
        self.send_file_as(crypto::new_uuid(), peer_device_id, details)
    }

    /// Offers a file to a peer under a given name.
    pub fn send_file_as(
        &mut self,
        transfer_id: String,
        peer_device_id: &String,
        details: FileDetails,
    ) -> (r: OfferedFile)
        requires
            old(self)@.wf(),
            old(self)@.next_id < u64::MAX,
        ensures
            final(self)@.wf(),
            r.transfer_id == transfer_id,
            offered(old(self)@, final(self)@, *peer_device_id, details, r),
    {
        let handle: TransferHandle = TransferHandle::new(
            transfer_id.clone(),
            details.file_name.clone(),
            details.file_size,
        );
        let total_chunks: u64 = handle.total_chunks();
        let record = TransferRecord {
            transfer_id: transfer_id.clone(),
            message_id: details.message_id.clone(),
            file_name: details.file_name.clone(),
            file_size: details.file_size,
            mime_type: details.mime_type.clone(),
            total_chunks,
            chunk_size: CHUNK_SIZE,
            direction: Direction::Send,
            local_path: details.source.local_path_for_db(),
        };
        let accepted: bool = match &details.folder_batch_id {
            Some(batch) => match self.pending_folder_offers.get(batch) {
                Some(awaiting) => !*awaiting,
                None => false,
            },
            None => false,
        };
        let number: u64 = self.next_id;
        self.next_id = self.next_id + 1;
        self.handles.insert(number, handle);
        self.outgoing_transfers.insert(
            transfer_id.clone(),
            OutgoingTransfer {
                file_source: details.source.clone(),
                handle: number,
                awaiting_decision: !accepted,
            },
        );
        assert(self@ =~= old(self)@.after_offer(transfer_id, details));
        proof {
            lemma_listing_kept(old(self)@, self@, transfer_id@);
        }
        let message = ProtocolMessage::FileOffer(
            FileOffer {
                transfer_id: transfer_id.clone(),
                message_id: details.message_id,
                conversation_id: details.conversation_id,
                file_name: details.file_name,
                file_size: details.file_size,
                mime_type: details.mime_type,
                total_chunks,
                chunk_size: CHUNK_SIZE,
                relative_path: details.relative_path,
                folder_batch_id: details.folder_batch_id,
            },
        );
        let offer: Result<Action> = self.send_to(peer_device_id, message);
        OfferedFile { transfer_id, handle: number, accepted, record, offer }
    }

    /// The peer rejected an offer: the transfer and its handle are forgotten,
    /// and it is recorded as failed, so that it is not taken up again.
    pub fn offer_declined(&mut self, handle: u64) -> (r: Vec<Action>)
        requires
            old(self)@.wf(),
        ensures
            final(self)@.wf(),
            final(self)@ == old(self)@.without_handle(handle),
            r@ == old(self)@.failure_record(handle),
    {
        let mut actions: Vec<Action> = Vec::new();
        match self.handles.get(&handle) {
            Some(h) => {
                assert(self@.handles[handle] == h@);
                actions.push(
                    Action::StoreTransferState {
                        transfer_id: h.transfer_id.clone(),
                        state: TransferState::Failed,
                        bytes_transferred: h.bytes_transferred,
                    },
                );
            },
            None => {},
        }
        assert(actions@ =~= old(self)@.failure_record(handle));
        self.drop_handle(handle);
        actions
    }

    /// The peer did not decide on an offer in time. This counts as a rejection,
    /// and the user is told of it as of one, so that the file does not seem to
    /// be on its way for ever.
    pub fn offer_timed_out(&mut self, peer_device_id: &String, handle: u64) -> (r: Vec<Action>)
        requires
            old(self)@.wf(),
        ensures
            final(self)@.wf(),
            final(self)@ == old(self)@.without_handle(handle),
            timeout_reaction(old(self)@, *peer_device_id, handle, r@),
    {
        let named: Option<String> = match self.handles.get(&handle) {
            Some(h) => {
                assert(self@.handles[handle] == h@);
                Some(h.transfer_id.clone())
            },
            None => None,
        };
        let mut actions: Vec<Action> = self.offer_declined(handle);
        if let Some(transfer_id) = named {
            actions.push(
                Action::Notify(
                    SinkCall::FileReject {
                        from_device_id: peer_device_id.clone(),
                        transfer_id,
                        reason: "no answer from the peer".to_string(),
                    },
                ),
            );
            assert(actions@.take(1) =~= old(self)@.failure_record(handle));
        }
        actions
    }

    /// The work on a transfer was broken off: a chunk could not be read or
    /// sent, or the peer is not connected. The transfer is no longer listed, so
    /// that it is taken up again when the peer connects.
    pub fn outgoing_failed(&mut self, handle: u64)
        requires
            old(self)@.wf(),
        ensures
            final(self)@.wf(),
            final(self)@ == old(self)@.without_handle(handle),
    {
        self.drop_handle(handle);
    }

    /// Forgets a handle and its transfer.
    fn drop_handle(&mut self, handle: u64)
        requires
            old(self)@.wf(),
        ensures
            final(self)@.wf(),
            final(self)@ == old(self)@.without_handle(handle),
    {
        match self.handles.remove(&handle) {
            Some(h) => {
                assert(old(self)@.handles[handle] == h@);
                let _ = self.outgoing_transfers.remove(&h.transfer_id);
                assert(self@ =~= old(self)@.without_handle(handle));
                proof {
                    lemma_listing_kept(old(self)@, self@, h@.transfer_id@);
                }
            },
            None => {
                assert(self@ =~= old(self)@);
            },
        }
    }

    /// Begins the work on an accepted or resumed transfer. The peer has to be
    /// connected.
    pub fn begin_outgoing(&self, peer_device_id: &String, handle: u64) -> (r: Result<OutgoingRun>)
        requires
            self@.wf(),
            self@.handles.contains_key(handle),
        ensures
            match r {
                Ok(run) => {
                    &&& self@.sessions.contains_key(peer_device_id@)
                    &&& run.wf()
                    &&& run.transfer_id == self@.handles[handle].transfer_id
                    &&& run.link == self@.sessions[peer_device_id@]
                    &&& run.handle == handle
                    &&& run.pending@ == self@.handles[handle].pending()
                    &&& run.next == 0
                },
                Err(e) => {
                    &&& !self@.sessions.contains_key(peer_device_id@)
                    &&& e@ == ErrorView::NotFound(
                        "peer "@ + peer_device_id@ + " not connected"@,
                    )
                },
            },
    {
        let link: u64 = match self.sessions.get(peer_device_id) {
            Some(l) => *l,
            None => {
                return Err(
                    CoreError::NotFound(
                        concat3("peer ", peer_device_id.as_str(), " not connected"),
                    ),
                );
            },
        };
        let h: &TransferHandle = self.handles.get(&handle).unwrap();
        Ok(
            OutgoingRun {
                transfer_id: h.transfer_id.clone(),
                link,
                handle,
                pending: h.pending_chunk_indices(),
                next: 0,
            },
        )
    }

    /// The next step of the work on a transfer, by the flags of its handle.
    pub fn next_chunk(&self, run: &mut OutgoingRun) -> (r: SendStep)
        requires
            self@.handles.contains_key(old(run).handle),
            old(run).wf(),
        ensures
            final(run).wf(),
            r == old(run).next_step(
                self@.handles[old(run).handle].cancelled,
                self@.handles[old(run).handle].paused,
            ),
            final(run).transfer_id == old(run).transfer_id,
            final(run).link == old(run).link,
            final(run).handle == old(run).handle,
            final(run).pending == old(run).pending,
            final(run).next == (if r is Chunk {
                old(run).next + 1
            } else {
                old(run).next as int
            }),
    {
        let (cancelled, paused): (bool, bool) = match self.handles.get(&run.handle) {
            Some(h) => (h.is_cancelled(), h.is_paused()),
            None => (true, false),
        };
        run.step(cancelled, paused)
    }

    /// A chunk has been sent: it counts as transferred, which is recorded and
    /// reported.
    pub fn chunk_sent(
        &mut self,
        handle: u64,
        chunk_index: u64,
        chunk_len: u64,
        now_nanos: u64,
    ) -> (r: Vec<Action>)
        requires
            old(self)@.wf(),
            old(self)@.handles.contains_key(handle),
        ensures
            final(self)@.wf(),
            ({
                let after = old(self)@.handles[handle].after_ack(chunk_index, chunk_len, now_nanos);
                &&& final(self)@ == (ManagerView {
                    handles: old(self)@.handles.insert(handle, after),
                    ..old(self)@
                })
                &&& r@ == seq![
                    Action::StoreChunkAck { transfer_id: after.transfer_id, chunk_index },
                    Action::Notify(
                        SinkCall::TransferProgress(after.snapshot(TransferState::Active)),
                    ),
                ]
            }),
    {
        let mut actions: Vec<Action> = Vec::new();
        match self.handles.remove(&handle) {
            Some(h) => {
                let mut h: TransferHandle = h;
                h.mark_chunk_acked(chunk_index, chunk_len, now_nanos);
                actions.push(
                    Action::StoreChunkAck { transfer_id: h.transfer_id.clone(), chunk_index },
                );
                actions.push(
                    Action::Notify(SinkCall::TransferProgress(h.progress(TransferState::Active))),
                );
                let ghost after = h@;
                self.handles.insert(handle, h);
                assert(self@ =~= (ManagerView {
                    handles: old(self)@.handles.insert(handle, after),
                    ..old(self)@
                }));
                proof {
                    lemma_listing_kept(old(self)@, self@, after.transfer_id@);
                }
            },
            None => {},
        }
        actions
    }

    /// All chunks that were handed out have been sent: the transfer has ended,
    /// cancelled or complete.
    pub fn finish_outgoing(&mut self, peer_device_id: &String, handle: u64) -> (r: Vec<Action>)
        requires
            old(self)@.wf(),
            old(self)@.handles.contains_key(handle),
        ensures
            final(self)@.wf(),
            final(self)@ == old(self)@.without_handle(handle),
            r@ == old(self)@.end_reaction(peer_device_id@, handle),
    {
        let mut actions: Vec<Action> = Vec::new();
        match self.handles.get(&handle) {
            Some(h) => {
                assert(self@.handles[handle] == h@);
                let cancelled: bool = h.is_cancelled();
                let state: TransferState = if cancelled {
                    TransferState::Cancelled
                } else {
                    TransferState::Completed
                };
                let progress = h.progress(state);
                let transfer_id: String = h.transfer_id.clone();
                if cancelled {
                    self.push_send(
                        &mut actions,
                        peer_device_id,
                        ProtocolMessage::FileTransferCancelled {
                            transfer_id: transfer_id.clone(),
                            by_device_id: self.device_id.clone(),
                        },
                    );
                }
                actions.push(
                    Action::StoreTransferState {
                        transfer_id,
                        state,
                        bytes_transferred: progress.bytes_transferred,
                    },
                );
                actions.push(Action::Notify(SinkCall::TransferProgress(progress)));
            },
            None => {},
        }
        assert(actions@ =~= old(self)@.end_reaction(peer_device_id@, handle));
        self.drop_handle(handle);
        actions
    }

    /// What becomes of an interrupted transfer when a peer connects.
    pub fn resume_decision(&self, device_id: &String, t: &ResumableTransfer) -> (r: ResumeDecision)
        ensures
            r == resume_decision_of(self@, device_id@, *t),
    {
        if !str_equal(t.peer_device_id.as_str(), device_id.as_str()) || !str_equal(
            t.direction.as_str(),
            "send",
        ) {
            ResumeDecision::NotOurs
        } else if self.outgoing_transfers.contains_key(&t.transfer_id) {
            ResumeDecision::Running
        } else if has_prefix(t.local_path.as_str(), "fd:") {
            ResumeDecision::FdSource
        } else {
            ResumeDecision::Resume
        }
    }

    /// Lists an interrupted transfer again, with the chunks that were
    /// acknowledged before, and returns the number of its handle. There is
    /// nothing to decide for the peer: it had accepted.
    pub fn resume_outgoing(
        &mut self,
        transfer_id: String,
        file_name: String,
        total_bytes: u64,
        local_path: String,
        already_acked: HashSet<u64>,
    ) -> (handle: u64)
        requires
            old(self)@.wf(),
            old(self)@.next_id < u64::MAX,
        ensures
            final(self)@.wf(),
            handle == old(self)@.next_id,
            final(self)@ == (ManagerView {
                outgoing: old(self)@.outgoing.insert(
                    transfer_id@,
                    OutgoingTransfer {
                        file_source: FileSource::Path(local_path),
                        handle,
                        awaiting_decision: false,
                    },
                ),
                handles: old(self)@.handles.insert(
                    handle,
                    HandleView::resumed(transfer_id, file_name, total_bytes, already_acked@),
                ),
                next_id: (old(self)@.next_id + 1) as u64,
                ..old(self)@
            }),
    {
        let h: TransferHandle = TransferHandle::resume_from_manifest(
            transfer_id.clone(),
            file_name,
            total_bytes,
            already_acked,
        );
        let number: u64 = self.next_id;
        self.next_id = self.next_id + 1;
        let ghost resumed = h@;
        let ghost key = transfer_id@;
        self.handles.insert(number, h);
        self.outgoing_transfers.insert(
            transfer_id,
            OutgoingTransfer {
                file_source: FileSource::Path(local_path),
                handle: number,
                awaiting_decision: false,
            },
        );
        assert(self@.handles =~= old(self)@.handles.insert(number, resumed));
        proof {
            lemma_listing_kept(old(self)@, self@, key);
        }
        number
    }
}

/// A transfer that is listed is not started a second time.
pub proof fn listed_transfer_is_not_resumed(
    v: ManagerView,
    device_id: Seq<char>,
    t: ResumableTransfer,
)
    requires
        v.outgoing.contains_key(t.transfer_id@),
    ensures
        !(resume_decision_of(v, device_id, t) is Resume),
{
}

/// A file that came from a descriptor is recorded in a way that is never taken
/// for a path to resume from.
pub proof fn descriptor_is_not_resumed(
    v: ManagerView,
    device_id: Seq<char>,
    t: ResumableTransfer,
    source: FileSource,
)
    requires
        source is Fd,
        t.local_path@ == source.stored_path(),
    ensures
        !(resume_decision_of(v, device_id, t) is Resume),
{
    assert("fd:"@.is_prefix_of(t.local_path@));
}

/// An offer that is not answered in time is over: nothing is left that a chunk
/// could be sent from, a final state is recorded, so that it is not taken up
/// again, and the user is told that it was rejected.
pub proof fn unanswered_offer_is_over(
    v: ManagerView,
    peer: String,
    handle: u64,
    actions: Seq<Action>,
)
    requires
        v.handles.contains_key(handle),
        timeout_reaction(v, peer, handle, actions),
    ensures
        ({
            let after = v.without_handle(handle);
            &&& !after.handles.contains_key(handle)
            &&& !after.outgoing.contains_key(v.handles[handle].transfer_id@)
        }),
        exists|i: int|
            0 <= i < actions.len() && {
                &&& #[trigger] actions[i] matches Action::StoreTransferState {
                    transfer_id,
                    state,
                    ..
                }
                &&& transfer_id == v.handles[handle].transfer_id
                &&& state.is_final()
            },
        exists|i: int|
            0 <= i < actions.len() && {
                &&& #[trigger] actions[i] matches Action::Notify(
                    SinkCall::FileReject { from_device_id, transfer_id, .. },
                )
                &&& from_device_id == peer
                &&& transfer_id == v.handles[handle].transfer_id
            },
{
    assert(actions[0] == actions.take(1)[0]);
    assert(actions[0] is StoreTransferState);
    assert(actions[1] is Notify);
}

/// An offer that was made and then accepted starts with every chunk of the
/// file; the peer's acceptance reaches the task that waits for it.
pub proof fn accepted_offer_sends_every_chunk(v: ManagerView, transfer_id: String, d: FileDetails)
    requires
        v.wf(),
        v.next_id < u64::MAX,
        !v.folder_accepted(d.folder_batch_id),
    ensures
        ({
            let after = v.after_offer(transfer_id, d);
            &&& after.resolve_offer(transfer_id@, true) == seq![
                Action::ResolveOffer { handle: v.next_id, accepted: true },
            ]
            &&& after.handles[v.next_id].pending() == pending_below(
                after.handles[v.next_id].total_chunks as nat,
                Set::empty(),
            )
        }),
{
}

/// While a transfer is neither paused nor cancelled, its pending chunks are
/// handed out in order, each once, until none is left.
pub proof fn chunks_are_handed_out_in_order(run: OutgoingRun)
    requires
        run.wf(),
    ensures
        run.next < run.pending@.len() ==> run.next_step(false, false) == SendStep::Chunk(
            run.pending@[run.next as int],
        ),
        run.next == run.pending@.len() ==> run.next_step(false, false) is Drain,
{
}

/// A paused transfer hands out no chunk, and neither does a cancelled one.
pub proof fn paused_or_cancelled_hands_out_nothing(run: OutgoingRun, cancelled: bool, paused: bool)
    requires
        cancelled || paused,
    ensures
        !(run.next_step(cancelled, paused) is Chunk),
        cancelled ==> run.next_step(cancelled, paused) is Drain,
{
}

/// A transfer that was broken off is taken up again when its peer connects, if
/// its file has a path.
pub proof fn broken_off_transfer_is_resumed(v: ManagerView, handle: u64, t: ResumableTransfer)
    requires
        v.handles.contains_key(handle),
        t.transfer_id == v.handles[handle].transfer_id,
        t.direction@ == "send"@,
        !"fd:"@.is_prefix_of(t.local_path@),
    ensures
        resume_decision_of(v.without_handle(handle), t.peer_device_id@, t) is Resume,
{
}

/// A chunk arrives as it was sent: the receiver that accepted the transfer, and
/// has not cancelled it, writes the same bytes, at the place that belongs to the chunk's index.
pub proof fn sent_chunk_is_written(
    receiver: ManagerView,
    transfer_id: String,
    chunk_index: u64,
    payload: Vec<u8>,
    chunk: FileChunkMessage,
    step: ChunkStep,
)
    requires
        is_chunk_message(ProtocolMessage::FileChunk(chunk), transfer_id, chunk_index, payload),
        receiver.incoming.contains_key(transfer_id@),
        !receiver.incoming[transfer_id@].handle.cancelled,
        chunk_index * CHUNK_SIZE <= u64::MAX,
        chunk_step_matches(receiver, chunk, step),
    ensures
        step == ChunkStep::Write(
            (ChunkWrite {
                transfer_id,
                chunk_index,
                dest_path: receiver.incoming[transfer_id@].dest_path,
                offset: (chunk_index * CHUNK_SIZE) as u64,
                payload,
            }),
        ),
{
}

} // verus!
