//! What the two shells of the application share: the queue of events that
//! they poll, the rows and messages of a chat, and sealed Bluetooth messages.
use vstd::prelude::*;
use vstd::utf8::{
    decode_utf8, encode_utf8, encode_utf8_decode_utf8, encode_utf8_valid_utf8, valid_utf8,
};

use crate::bytes;
use crate::connection_manager::{EventSink, SinkCall};
use crate::crypto;
use crate::crypto::{
    aead_takes, ed25519_public_of, hex_bytes, hex_failure, hex_roundtrip, hex_text, is_hex,
    x25519_public_of,
};
use crate::identity::sealed_box;
use crate::identity::sealed_box::{opened_of, sealed_of};
use crate::identity::DeviceIdentity;
use crate::protocol::{
    clone_entries, clone_option, FileOffer, FolderFileEntry, FolderOffer, ProtocolMessage,
    TextMessage,
};
use crate::str_map::StrMap;
use crate::text::{concat2, concat3, replace_char, replaced, str_equal};
use crate::transfer::{
    acked_bytes, bytes_of_chunks, chunk_count, chunks_of, done_fraction, fraction_done,
    TransferProgress, CHUNK_SIZE,
};

verus! {

/// Every event that the connection manager can raise, flat, for polling.
#[derive(Debug, Clone)]
pub enum AppEvent {
    TextMessage {
        from_device_id: String,
        message_id: String,
        conversation_id: String,
        body: String,
        sent_at_unix: u64,
    },
    FileOffer {
        from_device_id: String,
        transfer_id: String,
        file_name: String,
        file_size: u64,
        mime_type: String,
        /// The path inside the folder; empty for a single file.
        relative_path: String,
        /// The folder that the file belongs to, to group its files by.
        folder_batch_id: Option<String>,
    },
    FileAccept { from_device_id: String, transfer_id: String },
    FileReject { from_device_id: String, transfer_id: String, reason: String },
    FolderOffer {
        from_device_id: String,
        folder_batch_id: String,
        folder_name: String,
        total_files: u64,
        total_size: u64,
        files: Vec<FolderFileEntry>,
    },
    FolderAccept { from_device_id: String, folder_batch_id: String },
    FolderReject { from_device_id: String, folder_batch_id: String, reason: String },
    TransferProgress(TransferProgress),
    TransferComplete { transfer_id: String },
    TransferCancelled { transfer_id: String, by_device_id: String },
    Typing { conversation_id: String, is_typing: bool },
    ReadReceipt { message_id: String, read_at_unix: u64 },
    DeliveryAck { message_id: String, delivered_at_unix: u64 },
    Presence { device_id: String, online: bool },
    PeerConnected { device_id: String },
    PeerDisconnected { device_id: String },
}

/// The event that a call of the sink leaves in the queue.
pub open spec fn event_of(call: SinkCall, e: AppEvent) -> bool {
    match call {
        SinkCall::TextMessage { from_device_id, message } => e == (AppEvent::TextMessage {
            from_device_id,
            message_id: message.message_id,
            conversation_id: message.conversation_id,
            body: message.body,
            sent_at_unix: message.sent_at_unix,
        }),
        SinkCall::FileOffer { from_device_id, offer } => e == (AppEvent::FileOffer {
            from_device_id,
            transfer_id: offer.transfer_id,
            file_name: offer.file_name,
            file_size: offer.file_size,
            mime_type: offer.mime_type,
            relative_path: offer.relative_path,
            folder_batch_id: offer.folder_batch_id,
        }),
        SinkCall::FileAccept { from_device_id, transfer_id } => e == (AppEvent::FileAccept {
            from_device_id,
            transfer_id,
        }),
        SinkCall::FileReject { from_device_id, transfer_id, reason } => e == (AppEvent::FileReject {
            from_device_id,
            transfer_id,
            reason,
        }),
        SinkCall::FolderOffer { from_device_id, offer } => is_folder_event(
            from_device_id,
            offer,
            e,
        ),
        SinkCall::FolderAccept { from_device_id, folder_batch_id } => e == (
        AppEvent::FolderAccept { from_device_id, folder_batch_id }),
        SinkCall::FolderReject { from_device_id, folder_batch_id, reason } => e == (
        AppEvent::FolderReject { from_device_id, folder_batch_id, reason }),
        SinkCall::TransferProgress(p) => e == AppEvent::TransferProgress(p),
        SinkCall::TransferComplete { transfer_id } => e == (AppEvent::TransferComplete {
            transfer_id,
        }),
        SinkCall::TransferCancelled { transfer_id, by_device_id } => e == (
        AppEvent::TransferCancelled { transfer_id, by_device_id }),
        SinkCall::Typing { conversation_id, is_typing } => e == (AppEvent::Typing {
            conversation_id,
            is_typing,
        }),
        SinkCall::ReadReceipt { message_id, read_at_unix } => e == (AppEvent::ReadReceipt {
            message_id,
            read_at_unix,
        }),
        SinkCall::DeliveryAck { message_id, delivered_at_unix } => e == (AppEvent::DeliveryAck {
            message_id,
            delivered_at_unix,
        }),
        SinkCall::Presence { from_device_id, online } => e == (AppEvent::Presence {
            device_id: from_device_id,
            online,
        }),
        SinkCall::PeerConnected { device_id } => e == (AppEvent::PeerConnected { device_id }),
        SinkCall::PeerDisconnected { device_id } => e == (AppEvent::PeerDisconnected { device_id }),
    }
}

/// The event of a folder offer.
pub open spec fn is_folder_event(from: String, offer: FolderOffer, e: AppEvent) -> bool {
    &&& e matches AppEvent::FolderOffer {
        from_device_id,
        folder_batch_id,
        folder_name,
        total_files,
        total_size,
        files,
    }
    &&& from_device_id == from
    &&& folder_batch_id == offer.folder_batch_id
    &&& folder_name == offer.folder_name
    &&& total_files == offer.total_files
    &&& total_size == offer.total_size
    &&& files@ == offer.files@
}

/// The events that wait to be polled.
pub struct QueueSink {
    pub events: Vec<AppEvent>,
}

impl QueueSink {
    pub fn new() -> (r: Self)
        ensures
            r.events@ == Seq::<AppEvent>::empty(),
    {
        QueueSink { events: Vec::new() }
    }

    /// Takes all events that have accumulated, oldest first.
    pub fn drain(&mut self) -> (r: Vec<AppEvent>)
        ensures
            r@ == old(self).events@,
            final(self).events@ == Seq::<AppEvent>::empty(),
    {
        let mut out: Vec<AppEvent> = Vec::new();
        std::mem::swap(&mut out, &mut self.events);
        out
    }

    pub fn push(&mut self, event: AppEvent)
        ensures
            final(self).events@ == old(self).events@.push(event),
    {
        self.events.push(event);
    }

    /// Makes the call that the connection manager asked for.
    pub fn record(&mut self, call: SinkCall)
        ensures
            final(self).events@.len() == old(self).events@.len() + 1,
            final(self).events@.drop_last() == old(self).events@,
            event_of(call, final(self).events@.last()),
    {
        match call {
            SinkCall::TextMessage { from_device_id, message } => self.on_text_message(
                &from_device_id,
                &message,
            ),
            SinkCall::FileOffer { from_device_id, offer } => self.on_file_offer(
                &from_device_id,
                &offer,
            ),
            SinkCall::FileAccept { from_device_id, transfer_id } => self.on_file_accept(
                &from_device_id,
                &transfer_id,
            ),
            SinkCall::FileReject { from_device_id, transfer_id, reason } => self.on_file_reject(
                &from_device_id,
                &transfer_id,
                &reason,
            ),
            SinkCall::FolderOffer { from_device_id, offer } => self.on_folder_offer(
                &from_device_id,
                &offer,
            ),
            SinkCall::FolderAccept { from_device_id, folder_batch_id } => self.on_folder_accept(
                &from_device_id,
                &folder_batch_id,
            ),
            SinkCall::FolderReject { from_device_id, folder_batch_id, reason } =>
            self.on_folder_reject(&from_device_id, &folder_batch_id, &reason),
            SinkCall::TransferProgress(p) => self.on_transfer_progress(&p),
            SinkCall::TransferComplete { transfer_id } => self.on_transfer_complete(&transfer_id),
            SinkCall::TransferCancelled { transfer_id, by_device_id } =>
            self.on_transfer_cancelled(&transfer_id, &by_device_id),
            SinkCall::Typing { conversation_id, is_typing } => self.on_typing(
                &conversation_id,
                is_typing,
            ),
            SinkCall::ReadReceipt { message_id, read_at_unix } => self.on_read_receipt(
                &message_id,
                read_at_unix,
            ),
            SinkCall::DeliveryAck { message_id, delivered_at_unix } => self.on_delivery_ack(
                &message_id,
                delivered_at_unix,
            ),
            SinkCall::Presence { from_device_id, online } => self.on_presence(
                &from_device_id,
                online,
            ),
            SinkCall::PeerConnected { device_id } => self.on_peer_connected(&device_id),
            SinkCall::PeerDisconnected { device_id } => self.on_peer_disconnected(&device_id),
        }
        assert(self.events@.drop_last() =~= old(self).events@);
    }
}

impl EventSink for QueueSink {
    fn on_text_message(&mut self, from_device_id: &String, msg: &TextMessage)
        ensures
            final(self).events@ == old(self).events@.push(
                (AppEvent::TextMessage {
                    from_device_id: *from_device_id,
                    message_id: msg.message_id,
                    conversation_id: msg.conversation_id,
                    body: msg.body,
                    sent_at_unix: msg.sent_at_unix,
                }),
            ),
    {
        self.push(
            AppEvent::TextMessage {
                from_device_id: from_device_id.clone(),
                message_id: msg.message_id.clone(),
                conversation_id: msg.conversation_id.clone(),
                body: msg.body.clone(),
                sent_at_unix: msg.sent_at_unix,
            },
        );
    }

    fn on_file_offer(&mut self, from_device_id: &String, offer: &FileOffer)
        ensures
            final(self).events@ == old(self).events@.push(
                (AppEvent::FileOffer {
                    from_device_id: *from_device_id,
                    transfer_id: offer.transfer_id,
                    file_name: offer.file_name,
                    file_size: offer.file_size,
                    mime_type: offer.mime_type,
                    relative_path: offer.relative_path,
                    folder_batch_id: offer.folder_batch_id,
                }),
            ),
    {
        self.push(
            AppEvent::FileOffer {
                from_device_id: from_device_id.clone(),
                transfer_id: offer.transfer_id.clone(),
                file_name: offer.file_name.clone(),
                file_size: offer.file_size,
                mime_type: offer.mime_type.clone(),
                relative_path: offer.relative_path.clone(),
                folder_batch_id: clone_option(&offer.folder_batch_id),
            },
        );
    }

    fn on_file_accept(&mut self, from_device_id: &String, transfer_id: &String)
        ensures
            final(self).events@ == old(self).events@.push(
                (AppEvent::FileAccept {
                    from_device_id: *from_device_id,
                    transfer_id: *transfer_id,
                }),
            ),
    {
        self.push(
            AppEvent::FileAccept {
                from_device_id: from_device_id.clone(),
                transfer_id: transfer_id.clone(),
            },
        );
    }

    fn on_file_reject(&mut self, from_device_id: &String, transfer_id: &String, reason: &String)
        ensures
            final(self).events@ == old(self).events@.push(
                (AppEvent::FileReject {
                    from_device_id: *from_device_id,
                    transfer_id: *transfer_id,
                    reason: *reason,
                }),
            ),
    {
        self.push(
            AppEvent::FileReject {
                from_device_id: from_device_id.clone(),
                transfer_id: transfer_id.clone(),
                reason: reason.clone(),
            },
        );
    }

    fn on_folder_offer(&mut self, from_device_id: &String, offer: &FolderOffer)
        ensures
            final(self).events@.len() == old(self).events@.len() + 1,
            final(self).events@.drop_last() == old(self).events@,
            is_folder_event(*from_device_id, *offer, final(self).events@.last()),
    {
        self.push(
            AppEvent::FolderOffer {
                from_device_id: from_device_id.clone(),
                folder_batch_id: offer.folder_batch_id.clone(),
                folder_name: offer.folder_name.clone(),
                total_files: offer.total_files,
                total_size: offer.total_size,
                files: clone_entries(&offer.files),
            },
        );
        assert(self.events@.drop_last() =~= old(self).events@);
    }

    fn on_folder_accept(&mut self, from_device_id: &String, folder_batch_id: &String)
        ensures
            final(self).events@ == old(self).events@.push(
                (AppEvent::FolderAccept {
                    from_device_id: *from_device_id,
                    folder_batch_id: *folder_batch_id,
                }),
            ),
    {
        self.push(
            AppEvent::FolderAccept {
                from_device_id: from_device_id.clone(),
                folder_batch_id: folder_batch_id.clone(),
            },
        );
    }

    fn on_folder_reject(
        &mut self,
        from_device_id: &String,
        folder_batch_id: &String,
        reason: &String,
    )
        ensures
            final(self).events@ == old(self).events@.push(
                (AppEvent::FolderReject {
                    from_device_id: *from_device_id,
                    folder_batch_id: *folder_batch_id,
                    reason: *reason,
                }),
            ),
    {
        self.push(
            AppEvent::FolderReject {
                from_device_id: from_device_id.clone(),
                folder_batch_id: folder_batch_id.clone(),
                reason: reason.clone(),
            },
        );
    }

    fn on_transfer_progress(&mut self, progress: &TransferProgress)
        ensures
            final(self).events@ == old(self).events@.push(AppEvent::TransferProgress(*progress)),
    {
        self.push(AppEvent::TransferProgress(progress.clone()));
    }

    fn on_transfer_complete(&mut self, transfer_id: &String)
        ensures
            final(self).events@ == old(self).events@.push(
                (AppEvent::TransferComplete { transfer_id: *transfer_id }),
            ),
    {
        self.push(AppEvent::TransferComplete { transfer_id: transfer_id.clone() });
    }

    fn on_transfer_cancelled(&mut self, transfer_id: &String, by_device_id: &String)
        ensures
            final(self).events@ == old(self).events@.push(
                (AppEvent::TransferCancelled {
                    transfer_id: *transfer_id,
                    by_device_id: *by_device_id,
                }),
            ),
    {
        self.push(
            AppEvent::TransferCancelled {
                transfer_id: transfer_id.clone(),
                by_device_id: by_device_id.clone(),
            },
        );
    }

    fn on_typing(&mut self, conversation_id: &String, is_typing: bool)
        ensures
            final(self).events@ == old(self).events@.push(
                (AppEvent::Typing { conversation_id: *conversation_id, is_typing }),
            ),
    {
        self.push(AppEvent::Typing { conversation_id: conversation_id.clone(), is_typing });
    }

    fn on_read_receipt(&mut self, message_id: &String, read_at_unix: u64)
        ensures
            final(self).events@ == old(self).events@.push(
                (AppEvent::ReadReceipt { message_id: *message_id, read_at_unix }),
            ),
    {
        self.push(AppEvent::ReadReceipt { message_id: message_id.clone(), read_at_unix });
    }

    fn on_delivery_ack(&mut self, message_id: &String, delivered_at_unix: u64)
        ensures
            final(self).events@ == old(self).events@.push(
                (AppEvent::DeliveryAck { message_id: *message_id, delivered_at_unix }),
            ),
    {
        self.push(AppEvent::DeliveryAck { message_id: message_id.clone(), delivered_at_unix });
    }

    fn on_presence(&mut self, from_device_id: &String, online: bool)
        ensures
            final(self).events@ == old(self).events@.push(
                (AppEvent::Presence { device_id: *from_device_id, online }),
            ),
    {
        self.push(AppEvent::Presence { device_id: from_device_id.clone(), online });
    }

    fn on_peer_connected(&mut self, device_id: &String)
        ensures
            final(self).events@ == old(self).events@.push(
                (AppEvent::PeerConnected { device_id: *device_id }),
            ),
    {
        self.push(AppEvent::PeerConnected { device_id: device_id.clone() });
    }

    fn on_peer_disconnected(&mut self, device_id: &String)
        ensures
            final(self).events@ == old(self).events@.push(
                (AppEvent::PeerDisconnected { device_id: *device_id }),
            ),
    {
        self.push(AppEvent::PeerDisconnected { device_id: device_id.clone() });
    }
}

/// What a device shows of its identity.
#[derive(Debug)]
pub struct IdentityInfo {
    pub device_id: String,
    pub public_key_hex: String,
}

/// What is shown of an identity: its identifier and its Ed25519 public key.
pub open spec fn shows(info: IdentityInfo, id: DeviceIdentity) -> bool {
    &&& info.device_id == id.device_id
    &&& info.public_key_hex@ == hex_text(ed25519_public_of(id.signing_key@))
}

impl vstd::std_specs::convert::FromSpecImpl<&DeviceIdentity> for IdentityInfo {
    open spec fn obeys_from_spec() -> bool {
        false
    }

    open spec fn from_spec(id: &DeviceIdentity) -> IdentityInfo {
        choose|info: IdentityInfo| #[trigger] shows(info, *id)
    }
}

impl From<&DeviceIdentity> for IdentityInfo {
    fn from(id: &DeviceIdentity) -> (r: Self)
        ensures
            shows(r, *id),
    {
        IdentityInfo {
            device_id: id.device_id.clone(),
            public_key_hex: crypto::hex_encode(&id.verifying_key().ed25519),
        }
    }
}

/// The folders that the user has accepted, and from whom: the offers of their
/// files are accepted without asking again.
pub struct AcceptedFolders {
    pub batches: StrMap<String>,
}

impl View for AcceptedFolders {
    type V = Map<Seq<char>, String>;

    open spec fn view(&self) -> Map<Seq<char>, String> {
        self.batches@
    }
}

/// Whether an offer belongs to a folder that was accepted from the same peer.
pub open spec fn is_covered(
    folders: Map<Seq<char>, String>,
    from: Seq<char>,
    offer: FileOffer,
) -> bool {
    &&& offer.folder_batch_id matches Some(batch)
    &&& folders.contains_key(batch@)
    &&& folders[batch@]@ == from
}

impl AcceptedFolders {
    pub fn new() -> (r: Self)
        ensures
            r@ == Map::<Seq<char>, String>::empty(),
    {
        AcceptedFolders { batches: StrMap::new() }
    }

    /// The user has accepted a folder.
    pub fn accept(&mut self, from_device_id: &String, folder_batch_id: &String)
        ensures
            final(self)@ == old(self)@.insert(folder_batch_id@, *from_device_id),
    {
        self.batches.insert(folder_batch_id.clone(), from_device_id.clone());
    }

    /// Whether the user has accepted a file with its folder.
    pub fn covers(&self, from_device_id: &String, offer: &FileOffer) -> (b: bool)
        ensures
            b == is_covered(self@, from_device_id@, *offer),
    {
        match &offer.folder_batch_id {
            Some(batch) => match self.batches.get(batch) {
                Some(peer) => str_equal(peer.as_str(), from_device_id.as_str()),
                None => false,
            },
            None => false,
        }
    }
}

/// A folder is accepted with all its files: every offer that names it is
/// covered, if it comes from the same peer. What was decided on other folders
/// stays.
pub proof fn accepted_folder_covers_every_file(
    folders: Map<Seq<char>, String>,
    from: String,
    folder_batch_id: String,
    offer: FileOffer,
    sender: String,
)
    ensures
        ({
            let after = folders.insert(folder_batch_id@, from);
            &&& offer.folder_batch_id == Some(folder_batch_id) ==> (is_covered(
                after,
                sender@,
                offer,
            ) <==> sender@ == from@)
            &&& (offer.folder_batch_id matches Some(other) ==> other@ != folder_batch_id@) ==> (
            is_covered(after, sender@, offer) <==> is_covered(folders, sender@, offer))
        }),
{
}

/// A chat message to be entered in the database.
pub struct NewMessage {
    pub message_id: String,
    pub conversation_id: String,
    pub sender_device_id: String,
    pub body: String,
    pub msg_type: String,
    pub sent_at_unix: u64,
    pub status: String,
}

/// A message that was written on this device and is not delivered yet.
pub open spec fn is_own_message(
    m: NewMessage,
    message_id: String,
    conversation_id: String,
    body: String,
    msg_type: Seq<char>,
    sent_at_unix: u64,
) -> bool {
    &&& m.message_id == message_id
    &&& m.conversation_id == conversation_id
    &&& m.sender_device_id@ == "self"@
    &&& m.body == body
    &&& m.msg_type@ == msg_type
    &&& m.sent_at_unix == sent_at_unix
    &&& m.status@ == "pending"@
}

fn own_message(
    message_id: &String,
    conversation_id: &String,
    body: &String,
    msg_type: &str,
    sent_at_unix: u64,
) -> (m: NewMessage)
    ensures
        is_own_message(m, *message_id, *conversation_id, *body, msg_type@, sent_at_unix),
{
    NewMessage {
        message_id: message_id.clone(),
        conversation_id: conversation_id.clone(),
        sender_device_id: "self".to_string(),
        body: body.clone(),
        msg_type: msg_type.to_string(),
        sent_at_unix,
        status: "pending".to_string(),
    }
}

/// A text message on its way: the entry for the database, which comes first,
/// and the message for the peer.
pub struct OutgoingText {
    pub row: NewMessage,
    pub message: ProtocolMessage,
}

/// A new text message in a conversation, under a fresh name.
pub fn new_text_message(conversation_id: &String, body: &String, sent_at_unix: u64) -> (r:
    OutgoingText)
    ensures
        r.row.message_id@.len() == 36,
        is_outgoing_text(r, r.row.message_id, *conversation_id, *body, sent_at_unix),
{
    text_message_as(crypto::new_uuid(), conversation_id, body, sent_at_unix)
}

/// The entry and the message for one text.
pub open spec fn is_outgoing_text(
    t: OutgoingText,
    message_id: String,
    conversation_id: String,
    body: String,
    sent_at_unix: u64,
) -> bool {
    &&& is_own_message(t.row, message_id, conversation_id, body, "text"@, sent_at_unix)
    &&& t.message == ProtocolMessage::Text(
        TextMessage { message_id, conversation_id, body, sent_at_unix },
    )
}

/// A new text message under a given name.
pub fn text_message_as(
    message_id: String,
    conversation_id: &String,
    body: &String,
    sent_at_unix: u64,
) -> (r: OutgoingText)
    ensures
        is_outgoing_text(r, message_id, *conversation_id, *body, sent_at_unix),
{
    let row: NewMessage = own_message(&message_id, conversation_id, body, "text", sent_at_unix);
    let message = ProtocolMessage::Text(
        TextMessage {
            message_id,
            conversation_id: conversation_id.clone(),
            body: body.clone(),
            sent_at_unix,
        },
    );
    OutgoingText { row, message }
}

/// The entry of a file in the chat, under a fresh name; its text is the name
/// of the file.
pub fn new_file_message(conversation_id: &String, file_name: &String, sent_at_unix: u64) -> (m:
    NewMessage)
    ensures
        m.message_id@.len() == 36,
        is_own_message(m, m.message_id, *conversation_id, *file_name, "file"@, sent_at_unix),
{
    file_message_as(crypto::new_uuid(), conversation_id, file_name, sent_at_unix)
}

/// The entry of a file in the chat under a given name.
pub fn file_message_as(
    message_id: String,
    conversation_id: &String,
    file_name: &String,
    sent_at_unix: u64,
) -> (m: NewMessage)
    ensures
        is_own_message(m, message_id, *conversation_id, *file_name, "file"@, sent_at_unix),
{
    own_message(&message_id, conversation_id, file_name, "file", sent_at_unix)
}

/// The offer that is accepted, put together again from what the event of it
/// told. The conversation is the one with the sender.
pub fn offer_to_accept(
    from_device_id: &String,
    transfer_id: &String,
    message_id: &String,
    file_name: &String,
    file_size: u64,
    mime_type: &String,
) -> (o: FileOffer)
    ensures
        o.transfer_id == *transfer_id,
        o.message_id == *message_id,
        o.conversation_id == *from_device_id,
        o.file_name == *file_name,
        o.file_size == file_size,
        o.mime_type == *mime_type,
        o.total_chunks == chunks_of(file_size as int),
        o.chunk_size == CHUNK_SIZE,
        o.relative_path@ == Seq::<char>::empty(),
        o.folder_batch_id is None,
{
    FileOffer {
        transfer_id: transfer_id.clone(),
        message_id: message_id.clone(),
        conversation_id: from_device_id.clone(),
        file_name: file_name.clone(),
        file_size,
        mime_type: mime_type.clone(),
        total_chunks: chunk_count(file_size),
        chunk_size: CHUNK_SIZE,
        relative_path: String::new(),
        folder_batch_id: None,
    }
}

/// The progress of a transfer as the database knows it.
pub struct TransferReport {
    pub transfer_id: String,
    pub file_name: String,
    pub total_bytes: u64,
    pub bytes_transferred: u64,
    /// The part that is done, as numerator and denominator.
    pub done: (u64, u64),
}

/// The report on a transfer, given its name and size, if it is known, and the
/// number of its acknowledged chunks.
pub fn transfer_report(
    transfer_id: &String,
    meta: Option<(String, u64)>,
    acked_chunks: usize,
) -> (r: Result<TransferReport, String>)
    ensures
        match meta {
            Some((file_name, total_bytes)) => {
                let transferred = bytes_of_chunks(acked_chunks as nat, total_bytes) as u64;
                r == Ok::<TransferReport, String>(
                    TransferReport {
                        transfer_id: *transfer_id,
                        file_name,
                        total_bytes,
                        bytes_transferred: transferred,
                        done: fraction_done(transferred, total_bytes),
                    },
                )
            },
            None => r matches Err(e) && e@ == "transfer "@ + transfer_id@ + " not found"@,
        },
{
    match meta {
        Some((file_name, total_bytes)) => {
            let bytes_transferred: u64 = acked_bytes(acked_chunks, total_bytes);
            Ok(
                TransferReport {
                    transfer_id: transfer_id.clone(),
                    file_name,
                    total_bytes,
                    bytes_transferred,
                    done: done_fraction(bytes_transferred, total_bytes),
                },
            )
        },
        None => Err(concat3("transfer ", transfer_id.as_str(), " not found")),
    }
}

/// The public key of a device in hexadecimal, if it was seen before.
pub fn known_device_key_hex(peer_device_id: &String, key: Option<Vec<u8>>) -> (r: Result<
    String,
    String,
>)
    ensures
        match key {
            Some(k) => r matches Ok(s) && s@ == hex_text(k@),
            None => r matches Err(e) && e@ == "no known public key for device "@ + peer_device_id@,
        },
{
    match key {
        Some(k) => Ok(crypto::hex_encode(&k)),
        None => Err(concat2("no known public key for device ", peer_device_id.as_str())),
    }
}

/// The identity, if the database has one.
pub fn require_identity(identity: Option<DeviceIdentity>) -> (r: Result<DeviceIdentity, String>)
    ensures
        match identity {
            Some(id) => r == Ok::<DeviceIdentity, String>(id),
            None => r matches Err(e) && e@ == "no identity found; call init_app first"@,
        },
{
    match identity {
        Some(id) => Ok(id),
        None => Err("no identity found; call init_app first".to_string()),
    }
}

/// An error as the mobile shell gets it: a JSON object whose text has no
/// double quotes.
pub fn error_json(error: &str) -> (s: String)
    ensures
        s@ == "{\"error\":\""@ + replaced(error@, '"', '\'') + "\"}"@,
{
    concat3("{\"error\":\"", replace_char(error, '"', '\'').as_str(), "\"}")
}

/// A number of messages asked for by the mobile shell; a negative one is none.
pub fn clamp_limit(limit: i32) -> (n: u32)
    ensures
        n == (if limit < 0 {
            0
        } else {
            limit as int
        }),
{
    if limit < 0 {
        0
    } else {
        limit as u32
    }
}

/// A file size told by the mobile shell; a negative one is none.
pub fn clamp_size(size: i64) -> (n: u64)
    ensures
        n == (if size < 0 {
            0
        } else {
            size as int
        }),
{
    if size < 0 {
        0
    } else {
        size as u64
    }
}

/// What `String::from_utf8` says of bytes that are not UTF-8.
pub uninterp spec fn utf8_failure(data: Seq<u8>) -> Seq<char>;

/// `String::from_utf8`: the text whose UTF-8 form the bytes are, if there is
/// one. The text of the error is only named.
#[verifier::external_body]
fn text_from_utf8(data: Vec<u8>) -> (r: Result<String, String>)
    ensures
        match r {
            Ok(s) => valid_utf8(data@) && s@ == decode_utf8(data@),
            Err(e) => !valid_utf8(data@) && e@ == utf8_failure(data@),
        },
{
    String::from_utf8(data).map_err(|e| e.to_string())
}

/// Seals a text for the device with this public key and writes it in
/// hexadecimal. The holder of the key's secret opens it to the text.
pub fn ble_seal_message(recipient_public_key_hex: &str, plaintext: &str) -> (r: Result<
    String,
    String,
>)
    ensures
        ({
            let digits = encode_utf8(recipient_public_key_hex@);
            let key = hex_bytes(digits);
            let text = encode_utf8(plaintext@);
            match r {
                Ok(sealed_hex) => {
                    &&& is_hex(digits)
                    &&& key.len() == 32
                    &&& aead_takes(text.len())
                    &&& exists|ephemeral: [u8; 32], nonce: [u8; 12]|
                        sealed_hex@ == hex_text(#[trigger] sealed_of(ephemeral@, nonce@, key, text))
                    &&& forall|secret: [u8; 32]|
                        key == #[trigger] x25519_public_of(secret@) ==> opened_text(
                            secret@,
                            sealed_hex@,
                        ) == Ok::<_, Seq<char>>(plaintext@)
                },
                Err(e) => if !is_hex(digits) {
                    e@ == hex_failure(recipient_public_key_hex@)
                } else if key.len() != 32 {
                    e@ == "recipient public key must be exactly 32 bytes"@
                } else {
                    !aead_takes(text.len()) && e@ == "sealed_box encrypt failed: aead::Error"@
                },
            }
        }),
{
    let key_bytes: Vec<u8> = match crypto::hex_decode(recipient_public_key_hex) {
        Ok(k) => k,
        Err(e) => {
            return Err(e);
        },
    };
    let key: [u8; 32] = match bytes::array32(&key_bytes) {
        Some(k) => k,
        None => {
            return Err("recipient public key must be exactly 32 bytes".to_string());
        },
    };
    match sealed_box::seal(&key, plaintext.as_bytes()) {
        Ok(sealed) => {
            let text: String = crypto::hex_encode(&sealed);
            proof {
                hex_roundtrip(sealed@);
                encode_utf8_valid_utf8(plaintext@);
                encode_utf8_decode_utf8(plaintext@);
            }
            Ok(text)
        },
        Err(e) => Err(e.into_text()),
    }
}

/// The text that the holder of `secret` finds in a sealed message in
/// hexadecimal, or what is wrong with it.
pub open spec fn opened_text(secret: Seq<u8>, sealed_hex: Seq<char>) -> Result<
    Seq<char>,
    Seq<char>,
> {
    let digits = encode_utf8(sealed_hex);
    let sealed = hex_bytes(digits);
    if !is_hex(digits) {
        Err(hex_failure(sealed_hex))
    } else if sealed.len() < 44 {
        Err("sealed_box message too short"@)
    } else if opened_of(secret, sealed) is None {
        Err("sealed_box decrypt failed: aead::Error"@)
    } else if !valid_utf8(opened_of(secret, sealed)->Some_0) {
        Err(utf8_failure(opened_of(secret, sealed)->Some_0))
    } else {
        Ok(decode_utf8(opened_of(secret, sealed)->Some_0))
    }
}

/// Opens a sealed message in hexadecimal with the device's own identity.
pub fn ble_open_message(identity: &DeviceIdentity, sealed_hex: &str) -> (r: Result<String, String>)
    ensures
        match r {
            Ok(s) => opened_text(identity.noise_static@, sealed_hex@) == Ok::<_, Seq<char>>(s@),
            Err(e) => opened_text(identity.noise_static@, sealed_hex@) == Err::<Seq<char>, _>(e@),
        },
{
    let sealed: Vec<u8> = match crypto::hex_decode(sealed_hex) {
        Ok(s) => s,
        Err(e) => {
            return Err(e);
        },
    };
    match sealed_box::open(&identity.noise_static, &sealed) {
        Ok(plaintext) => text_from_utf8(plaintext),
        Err(e) => Err(e.into_text()),
    }
}

} // verus!
