//! The messages that two devices exchange inside an encrypted session.
use vstd::prelude::*;

verus! {

/// Every logical exchange between two devices is one of these. On the wire a
/// message is encoded, encrypted part by part with the session's keys, and
/// framed.
#[derive(Debug, Clone)]
pub enum ProtocolMessage {
    /// A chat message.
    Text(TextMessage),
    /// Announces a file; the receiver accepts or rejects it.
    FileOffer(FileOffer),
    FileAccept { transfer_id: String },
    FileReject { transfer_id: String, reason: String },
    /// Announces a whole folder once, ahead of the offers of its files, so
    /// that the receiver decides once for all of them.
    FolderOffer(FolderOffer),
    /// Accepts the folder, and with it every file whose offer names it.
    FolderAccept { folder_batch_id: String },
    FolderReject { folder_batch_id: String, reason: String },
    /// One chunk of a file.
    FileChunk(FileChunkMessage),
    /// The receiver has written a chunk.
    FileChunkAck { transfer_id: String, chunk_index: u64 },
    FileTransferComplete { transfer_id: String },
    FileTransferCancelled { transfer_id: String, by_device_id: String },
    TypingIndicator { conversation_id: String, is_typing: bool },
    ReadReceipt { message_id: String, read_at_unix: u64 },
    DeliveryAck { message_id: String, delivered_at_unix: u64 },
    Presence { online: bool, unix_time: u64 },
    Ping,
    Pong,
}

#[derive(Debug)]
pub struct TextMessage {
    pub message_id: String,
    pub conversation_id: String,
    pub body: String,
    pub sent_at_unix: u64,
}

impl Clone for TextMessage {
    fn clone(&self) -> (r: Self)
        ensures
            r == *self,
    {
        TextMessage {
            message_id: self.message_id.clone(),
            conversation_id: self.conversation_id.clone(),
            body: self.body.clone(),
            sent_at_unix: self.sent_at_unix,
        }
    }
}

#[derive(Debug, Clone)]
pub struct FolderOffer {
    pub folder_batch_id: String,
    pub conversation_id: String,
    pub folder_name: String,
    pub total_files: u64,
    pub total_size: u64,
    /// Every file of the folder, so that the decision is informed.
    pub files: Vec<FolderFileEntry>,
}

#[derive(Debug)]
pub struct FolderFileEntry {
    pub relative_path: String,
    pub file_size: u64,
    pub mime_type: String,
}

impl Clone for FolderFileEntry {
    fn clone(&self) -> (r: Self)
        ensures
            r == *self,
    {
        FolderFileEntry {
            relative_path: self.relative_path.clone(),
            file_size: self.file_size,
            mime_type: self.mime_type.clone(),
        }
    }
}

/// A copy of a list of files.
pub fn clone_entries(files: &Vec<FolderFileEntry>) -> (r: Vec<FolderFileEntry>)
    ensures
        r@ == files@,
{
    let mut out: Vec<FolderFileEntry> = Vec::new();
    let mut i: usize = 0;
    while i < files.len()
        invariant
            i <= files@.len(),
            out@ == files@.take(i as int),
        decreases files@.len() - i,
    {
        out.push(files[i].clone());
        assert(files@.take(i + 1) =~= files@.take(i as int).push(files@[i as int]));
        i = i + 1;
    }
    assert(files@.take(files@.len() as int) =~= files@);
    out
}

#[derive(Debug)]
pub struct FileOffer {
    pub transfer_id: String,
    pub message_id: String,
    pub conversation_id: String,
    pub file_name: String,
    pub file_size: u64,
    pub mime_type: String,
    pub total_chunks: u64,
    pub chunk_size: u64,
    /// The path inside the folder that is being sent; empty for a single file.
    pub relative_path: String,
    /// Groups the offers of one folder.
    pub folder_batch_id: Option<String>,
}

/// A copy of an optional string.
pub fn clone_option(s: &Option<String>) -> (r: Option<String>)
    ensures
        r == *s,
{
    match s {
        Some(x) => Some(x.clone()),
        None => None,
    }
}

impl Clone for FileOffer {
    fn clone(&self) -> (r: Self)
        ensures
            r == *self,
    {
        FileOffer {
            transfer_id: self.transfer_id.clone(),
            message_id: self.message_id.clone(),
            conversation_id: self.conversation_id.clone(),
            file_name: self.file_name.clone(),
            file_size: self.file_size,
            mime_type: self.mime_type.clone(),
            total_chunks: self.total_chunks,
            chunk_size: self.chunk_size,
            relative_path: self.relative_path.clone(),
            folder_batch_id: clone_option(&self.folder_batch_id),
        }
    }
}

#[derive(Debug, Clone)]
pub struct FileChunkMessage {
    pub transfer_id: String,
    pub chunk_index: u64,
    pub payload: Vec<u8>,
    pub checksum_sha256: [u8; 32],
}

} // verus!
