//! Core of a peer-to-peer messaging and file transfer application: device
//! identity, encrypted sessions, the wire protocol, chunked transfers with
//! resume, peer discovery and the decisions of the connection manager. Every
//! function states its result and is proved against that statement; sockets,
//! files, the database and the clock live outside, in the application.
pub mod bytes;
pub mod connection_manager;
pub mod crypto;
pub mod discovery;
pub mod error;
pub mod ffi;
pub mod folder;
pub mod framing;
pub mod handshake;
pub mod identity;
pub mod message_parts;
pub mod noise_session;
pub mod peer_session;
pub mod protocol;
pub mod signaling;
pub mod signaling_client;
pub mod storage;
pub mod str_map;
pub mod stun_client;
pub mod text;
pub mod transfer;
