//! The decisions of the connection manager: which peers are connected, what
//! becomes of every message that arrives, and how transfers are offered,
//! accepted, run, paused, cancelled and resumed.
//!
//! The manager does not touch a socket, a file or the database. Every method
//! changes its state and returns what is to be done, in order, as [`Action`]s;
//! what an action brings back is handed to another method.
use std::collections::HashMap;
use vstd::prelude::*;

use crate::connection_manager::incoming::{chunk_step_matches, ChunkStep};
use crate::error::{CoreError, ErrorView, Result};
use crate::protocol::{FileOffer, FolderOffer, ProtocolMessage, TextMessage};
use crate::signaling_client::SignalingSessionTracker;
use crate::str_map::StrMap;
use crate::text::concat2;
use crate::transfer::{FileSource, HandleView, TransferHandle, TransferProgress, TransferState};

pub mod folder_send;
pub mod incoming;
pub mod internet;
pub mod outgoing;

verus! {

broadcast use vstd::std_specs::hash::group_hash_axioms;

/// The callbacks by which the manager tells the application what happened.
pub trait EventSink {
    fn on_text_message(&mut self, from_device_id: &String, msg: &TextMessage);

    fn on_file_offer(&mut self, from_device_id: &String, offer: &FileOffer);

    fn on_file_accept(&mut self, from_device_id: &String, transfer_id: &String);

    fn on_file_reject(&mut self, from_device_id: &String, transfer_id: &String, reason: &String);

    fn on_folder_offer(&mut self, from_device_id: &String, offer: &FolderOffer);

    fn on_folder_accept(&mut self, from_device_id: &String, folder_batch_id: &String);

    fn on_folder_reject(
        &mut self,
        from_device_id: &String,
        folder_batch_id: &String,
        reason: &String,
    );

    fn on_transfer_progress(&mut self, progress: &TransferProgress);

    fn on_transfer_complete(&mut self, transfer_id: &String);

    fn on_transfer_cancelled(&mut self, transfer_id: &String, by_device_id: &String);

    fn on_typing(&mut self, conversation_id: &String, is_typing: bool);

    fn on_read_receipt(&mut self, message_id: &String, read_at_unix: u64);

    fn on_delivery_ack(&mut self, message_id: &String, delivered_at_unix: u64);

    fn on_presence(&mut self, from_device_id: &String, online: bool);

    fn on_peer_connected(&mut self, device_id: &String);

    fn on_peer_disconnected(&mut self, device_id: &String);
}

/// A call of an [`EventSink`], with its arguments.
pub enum SinkCall {
    TextMessage { from_device_id: String, message: TextMessage },
    FileOffer { from_device_id: String, offer: FileOffer },
    FileAccept { from_device_id: String, transfer_id: String },
    FileReject { from_device_id: String, transfer_id: String, reason: String },
    FolderOffer { from_device_id: String, offer: FolderOffer },
    FolderAccept { from_device_id: String, folder_batch_id: String },
    FolderReject { from_device_id: String, folder_batch_id: String, reason: String },
    TransferProgress(TransferProgress),
    TransferComplete { transfer_id: String },
    TransferCancelled { transfer_id: String, by_device_id: String },
    Typing { conversation_id: String, is_typing: bool },
    ReadReceipt { message_id: String, read_at_unix: u64 },
    DeliveryAck { message_id: String, delivered_at_unix: u64 },
    Presence { from_device_id: String, online: bool },
    PeerConnected { device_id: String },
    PeerDisconnected { device_id: String },
}

/// Something for the application to do.
pub enum Action {
    /// Tell the sink.
    Notify(SinkCall),
    /// Send a message over the session with this number.
    Send { link: u64, message: ProtocolMessage },
    /// Tell the task that waits for the decision on a file offer.
    ResolveOffer { handle: u64, accepted: bool },
    /// Tell the task that waits for the decision on a folder offer.
    ResolveFolder { folder_batch_id: String, accepted: bool },
    /// Record in the database that a chunk is acknowledged.
    StoreChunkAck { transfer_id: String, chunk_index: u64 },
    /// Record the state of a transfer in the database.
    StoreTransferState { transfer_id: String, state: TransferState, bytes_transferred: u64 },
    /// Record a peer's public key, which a handshake has just proved.
    StorePeerKey { device_id: String, public_key: Vec<u8> },
    /// Look for transfers to this peer that were interrupted.
    ResumeTransfers { device_id: String },
}

/// A file that this device offers or sends.
pub struct OutgoingTransfer {
    pub file_source: FileSource,
    /// The number of the transfer's handle.
    pub handle: u64,
    /// The peer has not decided on the offer yet.
    pub awaiting_decision: bool,
}

/// A file that this device receives.
pub struct IncomingTransfer {
    pub dest_path: String,
    pub handle: TransferHandle,
}

#[verifier::ext_equal]
pub struct IncomingView {
    pub dest_path: String,
    pub handle: HandleView,
}

impl View for IncomingTransfer {
    type V = IncomingView;

    open spec fn view(&self) -> IncomingView {
        IncomingView { dest_path: self.dest_path, handle: self.handle@ }
    }
}

pub struct ConnectionManager {
    pub device_id: String,
    /// The number of the session with each connected peer.
    pub sessions: StrMap<u64>,
    pub outgoing_transfers: StrMap<OutgoingTransfer>,
    /// The handles of outgoing transfers, by number: a transfer that is no
    /// longer listed may still have a task that works on its handle.
    pub handles: HashMap<u64, TransferHandle>,
    pub incoming_transfers: StrMap<IncomingTransfer>,
    /// The folders that this device offers: true while the decision is awaited,
    /// false once the folder is accepted.
    pub pending_folder_offers: StrMap<bool>,
    /// Whether there is a signaling server.
    pub signaling: bool,
    pub signaling_sessions: SignalingSessionTracker,
    /// The relay sessions whose handshake is in progress.
    pub relay_handshake_waiters: StrMap<()>,
    /// The number of the next session or handle.
    pub next_id: u64,
}

/// The state of the manager, mathematically.
#[verifier::ext_equal]
pub struct ManagerView {
    pub device_id: String,
    pub sessions: Map<Seq<char>, u64>,
    pub outgoing: Map<Seq<char>, OutgoingTransfer>,
    pub handles: Map<u64, HandleView>,
    pub incoming: Map<Seq<char>, IncomingView>,
    pub folders: Map<Seq<char>, bool>,
    pub signaling: bool,
    pub signaling_sessions: Map<Seq<char>, String>,
    pub relay_waiters: Map<Seq<char>, ()>,
    pub next_id: u64,
}

impl View for ConnectionManager {
    type V = ManagerView;

    open spec fn view(&self) -> ManagerView {
        ManagerView {
            device_id: self.device_id,
            sessions: self.sessions@,
            outgoing: self.outgoing_transfers@,
            handles: self.handles@.map_values(|h: TransferHandle| h@),
            incoming: self.incoming_transfers@.map_values(|t: IncomingTransfer| t@),
            folders: self.pending_folder_offers@,
            signaling: self.signaling,
            signaling_sessions: self.signaling_sessions@,
            relay_waiters: self.relay_handshake_waiters@,
            next_id: self.next_id,
        }
    }
}

/// The text of the error for a peer that is not connected.
pub open spec fn no_session_text(device_id: Seq<char>) -> Seq<char> {
    "no active session with "@ + device_id
}

impl ManagerView {
    /// Every listed outgoing transfer has a handle, which is its own; numbers
    /// are given out once; an incoming transfer is listed under its own name.
    pub open spec fn wf(self) -> bool {
        &&& forall|k: Seq<char>| #[trigger]
            self.outgoing.contains_key(k) ==> self.handles.contains_key(self.outgoing[k].handle)
                && self.handles[self.outgoing[k].handle].transfer_id@ == k
        &&& forall|h: u64| #[trigger] self.handles.contains_key(h) ==> h < self.next_id
        &&& forall|k: Seq<char>| #[trigger]
            self.incoming.contains_key(k) ==> self.incoming[k].handle.transfer_id@ == k
    }

    /// Whether this is the session over which the peer is connected.
    pub open spec fn is_current(self, device_id: Seq<char>, link: u64) -> bool {
        self.sessions.contains_key(device_id) && self.sessions[device_id] == link
    }

    /// The message for a peer, over its session; none without a session.
    pub open spec fn send_if_connected(self, device_id: Seq<char>, message: ProtocolMessage) -> Seq<
        Action,
    > {
        if self.sessions.contains_key(device_id) {
            seq![Action::Send { link: self.sessions[device_id], message }]
        } else {
            Seq::empty()
        }
    }

    /// The answer to a decision on the offer of a file: whoever waits for it is
    /// told, once.
    pub open spec fn resolve_offer(self, transfer_id: Seq<char>, accepted: bool) -> Seq<Action> {
        if self.outgoing.contains_key(transfer_id) && self.outgoing[transfer_id].awaiting_decision {
            seq![Action::ResolveOffer { handle: self.outgoing[transfer_id].handle, accepted }]
        } else {
            Seq::empty()
        }
    }

    /// The state after the decision on an offer has been passed on.
    pub open spec fn offer_resolved(self, transfer_id: Seq<char>) -> ManagerView {
        if self.outgoing.contains_key(transfer_id) {
            ManagerView {
                outgoing: self.outgoing.insert(
                    transfer_id,
                    OutgoingTransfer { awaiting_decision: false, ..self.outgoing[transfer_id] },
                ),
                ..self
            }
        } else {
            self
        }
    }

    pub open spec fn resolve_folder(self, folder_batch_id: String, accepted: bool) -> Seq<Action> {
        if self.folders.contains_key(folder_batch_id@) && self.folders[folder_batch_id@] {
            seq![Action::ResolveFolder { folder_batch_id, accepted }]
        } else {
            Seq::empty()
        }
    }

    pub open spec fn folder_resolved(self, folder_batch_id: Seq<char>) -> ManagerView {
        if self.folders.contains_key(folder_batch_id) {
            ManagerView { folders: self.folders.insert(folder_batch_id, false), ..self }
        } else {
            self
        }
    }

    /// Whether the peer has accepted the folder that an offer names.
    pub open spec fn folder_accepted(self, folder_batch_id: Option<String>) -> bool {
        &&& folder_batch_id matches Some(b)
        &&& self.folders.contains_key(b@)
        &&& !self.folders[b@]
    }

    /// The state with a transfer cancelled, in whichever direction it is known.
    pub open spec fn cancelled(self, transfer_id: Seq<char>) -> ManagerView {
        ManagerView {
            handles: if self.outgoing.contains_key(transfer_id) {
                let h = self.outgoing[transfer_id].handle;
                self.handles.insert(h, HandleView { cancelled: true, ..self.handles[h] })
            } else {
                self.handles
            },
            incoming: if self.incoming.contains_key(transfer_id) {
                let t = self.incoming[transfer_id];
                self.incoming.insert(
                    transfer_id,
                    IncomingView {
                        handle: HandleView { cancelled: true, ..t.handle },
                        ..t
                    },
                )
            } else {
                self.incoming
            },
            ..self
        }
    }

    /// The state with the pause flag of an outgoing transfer set.
    pub open spec fn with_pause(self, transfer_id: Seq<char>, paused: bool) -> ManagerView {
        if self.outgoing.contains_key(transfer_id) {
            let h = self.outgoing[transfer_id].handle;
            ManagerView {
                handles: self.handles.insert(h, HandleView { paused, ..self.handles[h] }),
                ..self
            }
        } else {
            self
        }
    }

    /// What a message other than a chunk leads to.
    pub open spec fn reaction(self, from: String, message: ProtocolMessage) -> Seq<Action> {
        match message {
            ProtocolMessage::Text(m) => seq![
                Action::Notify(SinkCall::TextMessage { from_device_id: from, message: m }),
            ],
            ProtocolMessage::FileOffer(offer) => seq![
                Action::Notify(SinkCall::FileOffer { from_device_id: from, offer }),
            ],
            ProtocolMessage::FileAccept { transfer_id } => self.resolve_offer(
                transfer_id@,
                true,
            ).push(Action::Notify(SinkCall::FileAccept { from_device_id: from, transfer_id })),
            ProtocolMessage::FileReject { transfer_id, reason } => self.resolve_offer(
                transfer_id@,
                false,
            ).push(
                Action::Notify(SinkCall::FileReject { from_device_id: from, transfer_id, reason }),
            ),
            ProtocolMessage::FolderOffer(offer) => seq![
                Action::Notify(SinkCall::FolderOffer { from_device_id: from, offer }),
            ],
            ProtocolMessage::FolderAccept { folder_batch_id } => self.resolve_folder(
                folder_batch_id,
                true,
            ).push(
                Action::Notify(SinkCall::FolderAccept { from_device_id: from, folder_batch_id }),
            ),
            ProtocolMessage::FolderReject { folder_batch_id, reason } => self.resolve_folder(
                folder_batch_id,
                false,
            ).push(
                Action::Notify(
                    SinkCall::FolderReject { from_device_id: from, folder_batch_id, reason },
                ),
            ),
            ProtocolMessage::FileChunk(_) => Seq::empty(),
            ProtocolMessage::FileChunkAck { .. } => Seq::empty(),
            ProtocolMessage::FileTransferComplete { transfer_id } => seq![
                Action::Notify(SinkCall::TransferComplete { transfer_id }),
            ],
            ProtocolMessage::FileTransferCancelled { transfer_id, by_device_id } => seq![
                Action::Notify(SinkCall::TransferCancelled { transfer_id, by_device_id }),
            ],
            ProtocolMessage::TypingIndicator { conversation_id, is_typing } => seq![
                Action::Notify(SinkCall::Typing { conversation_id, is_typing }),
            ],
            ProtocolMessage::ReadReceipt { message_id, read_at_unix } => seq![
                Action::Notify(SinkCall::ReadReceipt { message_id, read_at_unix }),
            ],
            ProtocolMessage::DeliveryAck { message_id, delivered_at_unix } => seq![
                Action::Notify(SinkCall::DeliveryAck { message_id, delivered_at_unix }),
            ],
            ProtocolMessage::Presence { online, .. } => seq![
                Action::Notify(SinkCall::Presence { from_device_id: from, online }),
            ],
            ProtocolMessage::Ping => self.send_if_connected(from@, ProtocolMessage::Pong),
            ProtocolMessage::Pong => Seq::empty(),
        }
    }

    /// The state after a message other than a chunk.
    pub open spec fn after_message(self, message: ProtocolMessage) -> ManagerView {
        match message {
            ProtocolMessage::FileAccept { transfer_id } => self.offer_resolved(transfer_id@),
            ProtocolMessage::FileReject { transfer_id, .. } => ManagerView {
                outgoing: self.outgoing.remove(transfer_id@),
                ..self
            },
            ProtocolMessage::FolderAccept { folder_batch_id } => self.folder_resolved(
                folder_batch_id@,
            ),
            ProtocolMessage::FolderReject { folder_batch_id, .. } => ManagerView {
                folders: self.folders.remove(folder_batch_id@),
                ..self
            },
            ProtocolMessage::FileTransferComplete { transfer_id } => ManagerView {
                incoming: self.incoming.remove(transfer_id@),
                ..self
            },
            ProtocolMessage::FileTransferCancelled { transfer_id, .. } => self.cancelled(
                transfer_id@,
            ),
            _ => self,
        }
    }
}

/// Every listed outgoing transfer keeps its handle where only the transfer named
/// `key` and the handles of that name change, and that one has a handle too.
proof fn lemma_listing_kept(before: ManagerView, after: ManagerView, key: Seq<char>)
    requires
        before.wf(),
        forall|k: Seq<char>|
            k != key && #[trigger] after.outgoing.contains_key(k) ==> before.outgoing.contains_key(k)
                && after.outgoing[k] == before.outgoing[k],
        forall|h: u64|
            #[trigger] before.handles.contains_key(h) && before.handles[h].transfer_id@ != key
                ==> after.handles.contains_key(h) && after.handles[h].transfer_id
                == before.handles[h].transfer_id,
        after.outgoing.contains_key(key) ==> after.handles.contains_key(after.outgoing[key].handle)
            && after.handles[after.outgoing[key].handle].transfer_id@ == key,
    ensures
        forall|k: Seq<char>| #[trigger]
            after.outgoing.contains_key(k) ==> after.handles.contains_key(after.outgoing[k].handle)
                && after.handles[after.outgoing[k].handle].transfer_id@ == k,
{
    assert forall|k: Seq<char>| #[trigger]
        after.outgoing.contains_key(k) implies after.handles.contains_key(after.outgoing[k].handle)
        && after.handles[after.outgoing[k].handle].transfer_id@ == k by {
        if k != key {
            assert(before.outgoing.contains_key(k));
        }
    }
}

/// What a message leads to: things to do, or a chunk to be written.
pub enum Dispatched {
    Actions(Vec<Action>),
    Chunk(ChunkStep),
}

/// A new session and what follows from it.
pub struct Registered {
    pub link: u64,
    pub actions: Vec<Action>,
}

impl ConnectionManager {
    pub fn new(device_id: String) -> (r: Self)
        ensures
            r@.wf(),
            r@ == (ManagerView {
                device_id,
                sessions: Map::empty(),
                outgoing: Map::empty(),
                handles: Map::empty(),
                incoming: Map::empty(),
                folders: Map::empty(),
                signaling: false,
                signaling_sessions: Map::empty(),
                relay_waiters: Map::empty(),
                next_id: 0,
            }),
    {
        ConnectionManager {
            device_id,
            sessions: StrMap::new(),
            outgoing_transfers: StrMap::new(),
            handles: HashMap::new(),
            incoming_transfers: StrMap::new(),
            pending_folder_offers: StrMap::new(),
            signaling: false,
            signaling_sessions: SignalingSessionTracker::new(),
            relay_handshake_waiters: StrMap::new(),
            next_id: 0,
        }
    }

    /// A peer has been authenticated: its key is recorded, it counts as
    /// connected from now on (over the new session, if it was before), and its
    /// interrupted transfers are looked for.
    pub fn register_session(&mut self, device_id: &String, peer_static_key: Vec<u8>) -> (r:
        Registered)
        requires
            old(self)@.wf(),
            old(self)@.next_id < u64::MAX,
        ensures
            final(self)@.wf(),
            r.link == old(self)@.next_id,
            final(self)@ == (ManagerView {
                sessions: old(self)@.sessions.insert(device_id@, r.link),
                next_id: (old(self)@.next_id + 1) as u64,
                ..old(self)@
            }),
            r.actions@ == seq![
                Action::StorePeerKey { device_id: *device_id, public_key: peer_static_key },
                Action::Notify(SinkCall::PeerConnected { device_id: *device_id }),
                Action::ResumeTransfers { device_id: *device_id },
            ],
    {
        let link: u64 = self.next_id;
        self.next_id = self.next_id + 1;
        self.sessions.insert(device_id.clone(), link);
        let mut actions: Vec<Action> = Vec::new();
        actions.push(
            Action::StorePeerKey { device_id: device_id.clone(), public_key: peer_static_key },
        );
        actions.push(Action::Notify(SinkCall::PeerConnected { device_id: device_id.clone() }));
        actions.push(Action::ResumeTransfers { device_id: device_id.clone() });
        Registered { link, actions }
    }

    /// The control stream of a session has ended. The peer counts as
    /// disconnected, unless another session has taken the place of this one.
    pub fn session_closed(&mut self, device_id: &String, link: u64) -> (r: Vec<Action>)
        requires
            old(self)@.wf(),
        ensures
            final(self)@.wf(),
            if old(self)@.is_current(device_id@, link) {
                &&& final(self)@ == (ManagerView {
                    sessions: old(self)@.sessions.remove(device_id@),
                    ..old(self)@
                })
                &&& r@ == seq![
                    Action::Notify(SinkCall::PeerDisconnected { device_id: *device_id }),
                ]
            } else {
                &&& final(self)@ == old(self)@
                &&& r@ == Seq::<Action>::empty()
            },
    {
        let mut actions: Vec<Action> = Vec::new();
        let current: bool = match self.sessions.get(device_id) {
            Some(l) => *l == link,
            None => false,
        };
        if current {
            let _ = self.sessions.remove(device_id);
            actions.push(
                Action::Notify(SinkCall::PeerDisconnected { device_id: device_id.clone() }),
            );
        }
        actions
    }

    /// The sending of a message to a peer, over its session.
    pub fn send_to(&self, device_id: &String, message: ProtocolMessage) -> (r: Result<Action>)
        ensures
            match r {
                Ok(a) => {
                    &&& self@.sessions.contains_key(device_id@)
                    &&& a == (Action::Send { link: self@.sessions[device_id@], message })
                },
                Err(e) => {
                    &&& !self@.sessions.contains_key(device_id@)
                    &&& e@ == ErrorView::NotFound(no_session_text(device_id@))
                },
            },
    {
        match self.sessions.get(device_id) {
            Some(link) => Ok(Action::Send { link: *link, message }),
            None => Err(
                CoreError::NotFound(concat2("no active session with ", device_id.as_str())),
            ),
        }
    }

    pub fn is_connected(&self, device_id: &String) -> (b: bool)
        ensures
            b == self@.sessions.contains_key(device_id@),
    {
        self.sessions.contains_key(device_id)
    }

    /// The peers with a session, each once, in no particular order.
    pub fn connected_device_ids(&self) -> (r: Vec<String>)
        ensures
            r@.len() == self@.sessions.len(),
            forall|i: int, j: int|
                #![trigger r@[i], r@[j]]
                0 <= i < j < r@.len() ==> r@[i]@ != r@[j]@,
            forall|k: Seq<char>|
                #[trigger] self@.sessions.contains_key(k) <==> exists|i: int|
                    0 <= i < r@.len() && (#[trigger] r@[i])@ == k,
    {
        self.sessions.keys()
    }

    /// Adds the sending of a message, if the peer is connected.
    fn push_send(&self, actions: &mut Vec<Action>, device_id: &String, message: ProtocolMessage)
        ensures
            final(actions)@ == old(actions)@ + self@.send_if_connected(device_id@, message),
    {
        match self.sessions.get(device_id) {
            Some(link) => {
                actions.push(Action::Send { link: *link, message });
            },
            None => {},
        }
        assert(actions@ =~= old(actions)@ + self@.send_if_connected(device_id@, message));
    }

    /// Takes note that the decision on a file offer is in, and tells who waits
    /// for it.
    fn resolve_file_offer(&mut self, transfer_id: &String, accepted: bool) -> (r: Vec<Action>)
        requires
            old(self)@.wf(),
        ensures
            final(self)@.wf(),
            final(self)@ == old(self)@.offer_resolved(transfer_id@),
            r@ == old(self)@.resolve_offer(transfer_id@, accepted),
    {
        let mut actions: Vec<Action> = Vec::new();
        match self.outgoing_transfers.remove(transfer_id) {
            Some(t) => {
                if t.awaiting_decision {
                    actions.push(Action::ResolveOffer { handle: t.handle, accepted });
                }
                self.outgoing_transfers.insert(
                    transfer_id.clone(),
                    OutgoingTransfer { awaiting_decision: false, ..t },
                );
                assert(self@.outgoing =~= old(self)@.offer_resolved(transfer_id@).outgoing);
            },
            None => {
                assert(self@.outgoing =~= old(self)@.outgoing);
            },
        }
        assert(actions@ =~= old(self)@.resolve_offer(transfer_id@, accepted));
        assert(self@ =~= old(self)@.offer_resolved(transfer_id@));
        actions
    }

    /// Takes note that the decision on a folder offer is in, and tells who
    /// waits for it.
    fn resolve_folder_offer(&mut self, folder_batch_id: &String, accepted: bool) -> (r: Vec<Action>)
        requires
            old(self)@.wf(),
        ensures
            final(self)@.wf(),
            final(self)@ == old(self)@.folder_resolved(folder_batch_id@),
            r@ == old(self)@.resolve_folder(*folder_batch_id, accepted),
    {
        let mut actions: Vec<Action> = Vec::new();
        match self.pending_folder_offers.remove(folder_batch_id) {
            Some(awaiting) => {
                if awaiting {
                    actions.push(
                        Action::ResolveFolder {
                            folder_batch_id: folder_batch_id.clone(),
                            accepted,
                        },
                    );
                }
                self.pending_folder_offers.insert(folder_batch_id.clone(), false);
            },
            None => {},
        }
        assert(actions@ =~= old(self)@.resolve_folder(*folder_batch_id, accepted));
        assert(self@ =~= old(self)@.folder_resolved(folder_batch_id@));
        actions
    }

    /// Sets the cancel flag of a transfer, in whichever direction it is known.
    fn mark_cancelled(&mut self, transfer_id: &String)
        requires
            old(self)@.wf(),
        ensures
            final(self)@.wf(),
            final(self)@ == old(self)@.cancelled(transfer_id@),
    {
        let number: Option<u64> = match self.outgoing_transfers.get(transfer_id) {
            Some(t) => Some(t.handle),
            None => None,
        };
        if let Some(h) = number {
            assert(self@.outgoing.contains_key(transfer_id@));
            assert(self@.handles.contains_key(h));
            match self.handles.remove(&h) {
                Some(handle) => {
                    let mut handle: TransferHandle = handle;
                    handle.cancel();
                    self.handles.insert(h, handle);
                },
                None => {},
            }
        }
        let ghost mid = self@;
        assert(mid =~= (ManagerView {
            handles: old(self)@.cancelled(transfer_id@).handles,
            ..old(self)@
        }));
        match self.incoming_transfers.remove(transfer_id) {
            Some(t) => {
                let mut t: IncomingTransfer = t;
                t.handle.cancel();
                self.incoming_transfers.insert(transfer_id.clone(), t);
            },
            None => {},
        }
        assert(self@ =~= old(self)@.cancelled(transfer_id@));
    }

    /// What becomes of a message from a peer.
    pub fn dispatch_incoming(&mut self, from_device_id: &String, message: ProtocolMessage) -> (r:
        Dispatched)
        requires
            old(self)@.wf(),
        ensures
            final(self)@.wf(),
            final(self)@ == old(self)@.after_message(message),
            match message {
                ProtocolMessage::FileChunk(chunk) => r matches Dispatched::Chunk(step)
                    && chunk_step_matches(old(self)@, chunk, step),
                _ => r matches Dispatched::Actions(actions) && actions@ == old(self)@.reaction(
                    *from_device_id,
                    message,
                ),
            },
    {
        let mut actions: Vec<Action> = Vec::new();
        match message {
            ProtocolMessage::Text(m) => {
                actions.push(
                    Action::Notify(
                        SinkCall::TextMessage {
                            from_device_id: from_device_id.clone(),
                            message: m,
                        },
                    ),
                );
            },
            ProtocolMessage::FileOffer(offer) => {
                actions.push(
                    Action::Notify(
                        SinkCall::FileOffer { from_device_id: from_device_id.clone(), offer },
                    ),
                );
            },
            ProtocolMessage::FileAccept { transfer_id } => {
                actions = self.resolve_file_offer(&transfer_id, true);
                actions.push(
                    Action::Notify(
                        SinkCall::FileAccept {
                            from_device_id: from_device_id.clone(),
                            transfer_id,
                        },
                    ),
                );
            },
            ProtocolMessage::FileReject { transfer_id, reason } => {
                actions = self.resolve_file_offer(&transfer_id, false);
                let _ = self.outgoing_transfers.remove(&transfer_id);
                assert(self@.outgoing =~= old(self)@.outgoing.remove(transfer_id@));
                actions.push(
                    Action::Notify(
                        SinkCall::FileReject {
                            from_device_id: from_device_id.clone(),
                            transfer_id,
                            reason,
                        },
                    ),
                );
            },
            ProtocolMessage::FolderOffer(offer) => {
                actions.push(
                    Action::Notify(
                        SinkCall::FolderOffer { from_device_id: from_device_id.clone(), offer },
                    ),
                );
            },
            ProtocolMessage::FolderAccept { folder_batch_id } => {
                actions = self.resolve_folder_offer(&folder_batch_id, true);
                actions.push(
                    Action::Notify(
                        SinkCall::FolderAccept {
                            from_device_id: from_device_id.clone(),
                            folder_batch_id,
                        },
                    ),
                );
            },
            ProtocolMessage::FolderReject { folder_batch_id, reason } => {
                actions = self.resolve_folder_offer(&folder_batch_id, false);
                let _ = self.pending_folder_offers.remove(&folder_batch_id);
                assert(self@.folders =~= old(self)@.folders.remove(folder_batch_id@));
                actions.push(
                    Action::Notify(
                        SinkCall::FolderReject {
                            from_device_id: from_device_id.clone(),
                            folder_batch_id,
                            reason,
                        },
                    ),
                );
            },
            ProtocolMessage::FileChunk(chunk) => {
                return Dispatched::Chunk(self.handle_incoming_chunk(chunk));
            },
            ProtocolMessage::FileChunkAck { .. } => {},
            ProtocolMessage::FileTransferComplete { transfer_id } => {
                let _ = self.incoming_transfers.remove(&transfer_id);
                assert(self@.incoming =~= old(self)@.incoming.remove(transfer_id@));
                actions.push(Action::Notify(SinkCall::TransferComplete { transfer_id }));
            },
            ProtocolMessage::FileTransferCancelled { transfer_id, by_device_id } => {
                self.mark_cancelled(&transfer_id);
                actions.push(
                    Action::Notify(SinkCall::TransferCancelled { transfer_id, by_device_id }),
                );
            },
            ProtocolMessage::TypingIndicator { conversation_id, is_typing } => {
                actions.push(Action::Notify(SinkCall::Typing { conversation_id, is_typing }));
            },
            ProtocolMessage::ReadReceipt { message_id, read_at_unix } => {
                actions.push(Action::Notify(SinkCall::ReadReceipt { message_id, read_at_unix }));
            },
            ProtocolMessage::DeliveryAck { message_id, delivered_at_unix } => {
                actions.push(
                    Action::Notify(SinkCall::DeliveryAck { message_id, delivered_at_unix }),
                );
            },
            ProtocolMessage::Presence { online, .. } => {
                actions.push(
                    Action::Notify(
                        SinkCall::Presence { from_device_id: from_device_id.clone(), online },
                    ),
                );
            },
            ProtocolMessage::Ping => {
                self.push_send(&mut actions, from_device_id, ProtocolMessage::Pong);
            },
            ProtocolMessage::Pong => {},
        }
        assert(actions@ =~= old(self)@.reaction(*from_device_id, message));
        assert(self@ =~= old(self)@.after_message(message));
        Dispatched::Actions(actions)
    }

    /// Cancels a transfer that this device sends or receives: its workers stop
    /// at the flag, and the peer is told.
    pub fn cancel_transfer(&mut self, peer_device_id: &String, transfer_id: &String) -> (r: Result<
        Action,
    >)
        requires
            old(self)@.wf(),
        ensures
            final(self)@.wf(),
            final(self)@ == old(self)@.cancelled(transfer_id@),
            match r {
                Ok(a) => {
                    &&& old(self)@.sessions.contains_key(peer_device_id@)
                    &&& a == (Action::Send {
                        link: old(self)@.sessions[peer_device_id@],
                        message: ProtocolMessage::FileTransferCancelled {
                            transfer_id: *transfer_id,
                            by_device_id: old(self)@.device_id,
                        },
                    })
                },
                Err(e) => {
                    &&& !old(self)@.sessions.contains_key(peer_device_id@)
                    &&& e@ == ErrorView::NotFound(no_session_text(peer_device_id@))
                },
            },
    {
        self.mark_cancelled(transfer_id);
        self.send_to(
            peer_device_id,
            ProtocolMessage::FileTransferCancelled {
                transfer_id: transfer_id.clone(),
                by_device_id: self.device_id.clone(),
            },
        )
    }

    /// Sets or clears the pause flag of an outgoing transfer, if it is known.
    fn set_paused(&mut self, transfer_id: &String, paused: bool)
        requires
            old(self)@.wf(),
        ensures
            final(self)@.wf(),
            final(self)@ == old(self)@.with_pause(transfer_id@, paused),
    {
        let number: Option<u64> = match self.outgoing_transfers.get(transfer_id) {
            Some(t) => Some(t.handle),
            None => None,
        };
        if let Some(h) = number {
            assert(self@.outgoing.contains_key(transfer_id@));
            assert(self@.handles.contains_key(h));
            match self.handles.remove(&h) {
                Some(handle) => {
                    let mut handle: TransferHandle = handle;
                    if paused {
                        handle.pause();
                    } else {
                        handle.resume();
                    }
                    self.handles.insert(h, handle);
                },
                None => {},
            }
        }
        assert(self@ =~= old(self)@.with_pause(transfer_id@, paused));
    }

    pub fn pause_outgoing_transfer(&mut self, transfer_id: &String)
        requires
            old(self)@.wf(),
        ensures
            final(self)@.wf(),
            final(self)@ == old(self)@.with_pause(transfer_id@, true),
    {
        self.set_paused(transfer_id, true);
    }

    pub fn resume_outgoing_transfer(&mut self, transfer_id: &String)
        requires
            old(self)@.wf(),
        ensures
            final(self)@.wf(),
            final(self)@ == old(self)@.with_pause(transfer_id@, false),
    {
        self.set_paused(transfer_id, false);
    }
}

/// A peer that has connected anew stays connected when its earlier session ends.
pub proof fn newer_session_outlives_the_older(v: ManagerView, device_id: Seq<char>, older: u64)
    requires
        older < v.next_id,
    ensures
        !(ManagerView {
            sessions: v.sessions.insert(device_id, v.next_id),
            ..v
        }).is_current(device_id, older),
{
}

/// The decision on an offer is passed on once: after an answer has come, a
/// second one reaches nobody.
pub proof fn offer_is_decided_once(v: ManagerView, transfer_id: Seq<char>, accepted: bool)
    ensures
        v.offer_resolved(transfer_id).resolve_offer(transfer_id, accepted) == Seq::<Action>::empty(),
{
}

/// The decision on a folder is passed on once.
pub proof fn folder_is_decided_once(v: ManagerView, folder_batch_id: String, accepted: bool)
    ensures
        v.folder_resolved(folder_batch_id@).resolve_folder(folder_batch_id, accepted) == Seq::<
            Action,
        >::empty(),
{
}

/// Whatever a peer sends, it leaves the sessions, the signaling state and the
/// transfers of other names as they were.
pub proof fn messages_touch_only_their_transfer(
    v: ManagerView,
    message: ProtocolMessage,
    other: Seq<char>,
)
    requires
        v.wf(),
        message matches ProtocolMessage::FileAccept { transfer_id } ==> transfer_id@ != other,
        message matches ProtocolMessage::FileReject { transfer_id, .. } ==> transfer_id@ != other,
        message matches ProtocolMessage::FileTransferComplete { transfer_id } ==> transfer_id@
            != other,
        message matches ProtocolMessage::FileTransferCancelled { transfer_id, .. } ==> transfer_id@
            != other,
    ensures
        ({
            let after = v.after_message(message);
            &&& after.sessions == v.sessions
            &&& after.signaling_sessions == v.signaling_sessions
            &&& after.relay_waiters == v.relay_waiters
            &&& after.outgoing.contains_key(other) == v.outgoing.contains_key(other)
            &&& v.outgoing.contains_key(other) ==> after.outgoing[other] == v.outgoing[other]
                && after.handles[v.outgoing[other].handle] == v.handles[v.outgoing[other].handle]
            &&& after.incoming.contains_key(other) == v.incoming.contains_key(other)
            &&& v.incoming.contains_key(other) ==> after.incoming[other] == v.incoming[other]
        }),
{
}

/// A cancelled transfer is seen as cancelled by whoever works on it.
pub proof fn cancelling_reaches_both_directions(v: ManagerView, transfer_id: Seq<char>)
    requires
        v.wf(),
    ensures
        v.outgoing.contains_key(transfer_id) ==> v.cancelled(
            transfer_id,
        ).handles[v.outgoing[transfer_id].handle].cancelled,
        v.incoming.contains_key(transfer_id) ==> v.cancelled(
            transfer_id,
        ).incoming[transfer_id].handle.cancelled,
{
}

} // verus!
