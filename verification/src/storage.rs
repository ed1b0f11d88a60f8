//! The rules around the database: how rows become values and back. The
//! database itself is the application's.
use vstd::prelude::*;

use crate::bytes;
use crate::error::{CoreError, ErrorView, Result};
use crate::identity::StoredIdentity;

verus! {

/// A chat message as it is kept.
#[derive(Debug)]
pub struct StoredMessage {
    pub message_id: String,
    pub conversation_id: String,
    pub sender_device_id: String,
    pub body: String,
    pub msg_type: String,
    pub sent_at: i64,
    pub delivered_at: Option<i64>,
    pub read_at: Option<i64>,
    pub status: String,
}

/// The identity in a row of the database, if its keys have the right length.
pub fn identity_from_row(
    device_id: String,
    signing_key_bytes: &[u8],
    noise_static_bytes: &[u8],
) -> (r: Result<StoredIdentity>)
    ensures
        match r {
            Ok(s) => {
                &&& s.device_id == device_id
                &&& s.signing_key_bytes@ == signing_key_bytes@
                &&& s.noise_static_bytes@ == noise_static_bytes@
            },
            Err(e) => {
                &&& signing_key_bytes@.len() != 32 || noise_static_bytes@.len() != 32
                &&& e@ == ErrorView::Storage("Query is not read-only"@)
            },
        },
{
    match (bytes::array32(signing_key_bytes), bytes::array32(noise_static_bytes)) {
        (Some(signing), Some(noise)) => Ok(
            StoredIdentity {
                device_id,
                signing_key_bytes: signing,
                noise_static_bytes: noise,
            },
        ),
        _ => Err(CoreError::Storage("Query is not read-only".to_string())),
    }
}

/// The conversation with a peer: there is one for each peer, under the peer's
/// own identifier.
pub fn conversation_id_for(peer_device_id: &String) -> (s: String)
    ensures
        s == *peer_device_id,
{
    peer_device_id.clone()
}

/// The column value of an unsigned number: the same 64 bits, signed.
pub open spec fn column_of(x: u64) -> int {
    if x < 9223372036854775808 {
        x as int
    } else {
        x - 18446744073709551616
    }
}

pub fn to_column(x: u64) -> (v: i64)
    ensures
        v == column_of(x),
{
    if x < 9223372036854775808 {
        x as i64
    } else {
        let back: u64 = 18446744073709551615 - x;
        -1 - (back as i64)
    }
}

/// The unsigned number in a column.
pub fn from_column(v: i64) -> (x: u64)
    ensures
        column_of(x) == v,
{
    if v >= 0 {
        v as u64
    } else {
        let back: u64 = (-1 - v) as u64;
        18446744073709551615 - back
    }
}

/// A number is read from its column as it was written.
pub proof fn column_roundtrip(x: u64, y: u64)
    requires
        column_of(x) == column_of(y),
    ensures
        x == y,
{
}

/// Turns the newest messages, which come newest first, into reading order.
pub fn oldest_first(messages: Vec<StoredMessage>) -> (r: Vec<StoredMessage>)
    ensures
        r@ == messages@.reverse(),
{
    let ghost all = messages@;
    let mut rest: Vec<StoredMessage> = messages;
    let mut out: Vec<StoredMessage> = Vec::new();
    while rest.len() > 0
        invariant
            rest@.len() <= all.len(),
            rest@ == all.take(rest@.len() as int),
            out@ =~= all.skip(rest@.len() as int).reverse(),
        decreases rest@.len(),
    {
        let ghost n = rest@.len();
        match rest.pop() {
            Some(m) => {
                out.push(m);
                proof {
                    assert(rest@ =~= all.take(n - 1));
                    assert(all.skip(n - 1) =~= seq![m] + all.skip(n as int));
                }
            },
            None => {},
        }
    }
    assert(all.skip(0) =~= all);
    out
}

} // verus!
