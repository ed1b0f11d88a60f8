//! Messages of any length over a transport that takes short ones. A message
//! that fits is encrypted as it is. A longer one is cut into parts, each of
//! which is encrypted by itself, behind an empty one that opens it. Every part
//! up to the last is full, and the last one is not: so a reader knows the end of
//! a message without being told its length.
use vstd::prelude::*;
use vstd::slice::slice_subrange;

use crate::error::{CoreError, ErrorView, Result};
use crate::noise_session::{
    noise_opened, noise_sealed, transport_model, NoiseSession, TransportModel,
};
use crate::text::{concat3, decimal, decimal_string};
use crate::transfer::CHUNK_SIZE;

verus! {

/// The length of a full part: with its tag it is the longest message that the
/// transport takes.
pub const PART_SIZE: usize = 65519;

/// The longest message: a full chunk whose bytes are written as decimal
/// numbers, four characters for each, and a margin for what wraps it. Nothing
/// longer is sent, and nothing longer is put together again.
pub const MAX_MESSAGE: usize = 33558528;

/// Whether a message of this length is encrypted as it is. An empty one is not,
/// so that an empty part opens a long message and nothing else; the encoding of
/// a message is never empty.
pub open spec fn fits(len: nat) -> bool {
    0 < len <= PART_SIZE
}

/// How many parts a message of this length has.
pub open spec fn part_count(len: nat) -> nat {
    if fits(len) {
        1
    } else {
        len / (PART_SIZE as nat) + 2
    }
}

/// The bytes of a long message in front of its part number `i`.
pub open spec fn before_part(message: Seq<u8>, i: int) -> Seq<u8> {
    message.take((i - 1) * PART_SIZE)
}

/// The part number `i` of a message.
pub open spec fn part(message: Seq<u8>, i: int) -> Seq<u8> {
    if fits(message.len()) {
        message
    } else if i == 0 {
        Seq::empty()
    } else {
        message.subrange(
            (i - 1) * PART_SIZE,
            if i * PART_SIZE <= message.len() {
                i * PART_SIZE
            } else {
                message.len() as int
            },
        )
    }
}

/// The parts of a message make it up. One that fits is its only part, and that
/// is not empty. The first part of any other is empty; each of the others
/// follows the bytes in front of it, all but the last are full, the last is
/// shorter, and nothing is left over.
pub proof fn parts_make_up_the_message(message: Seq<u8>, i: int)
    requires
        0 <= i < part_count(message.len()),
    ensures
        fits(message.len()) ==> i == 0 && part(message, i) == message && message.len() > 0,
        !fits(message.len()) ==> {
            &&& part(message, 0) == Seq::<u8>::empty()
            &&& before_part(message, 1) == Seq::<u8>::empty()
            &&& 0 < i && i + 1 < part_count(message.len()) ==> part(message, i).len() == PART_SIZE
                && before_part(message, i) + part(message, i) == before_part(message, i + 1)
            &&& 0 < i && i + 1 == part_count(message.len()) ==> part(message, i).len() < PART_SIZE
                && before_part(message, i) + part(message, i) == message
        },
{
    if !fits(message.len()) {
        assert(before_part(message, 1) =~= Seq::<u8>::empty());
        if 0 < i && i + 1 < part_count(message.len()) {
            assert(before_part(message, i) + part(message, i) =~= before_part(message, i + 1));
        } else if 0 < i {
            assert(before_part(message, i) + part(message, i) =~= message);
        }
    }
}

/// The text of the error for a message that is too long.
pub open spec fn overlong_text(len: nat) -> Seq<char> {
    "message length "@ + decimal(len) + " exceeds max 33558528"@
}

impl TransportModel {
    /// The counter ends before this many messages are sent.
    pub open spec fn exhausted_within(self, messages: nat) -> bool {
        self.sent <= u64::MAX < self.sent + messages
    }

    pub open spec fn after_sends(self, messages: nat) -> TransportModel {
        TransportModel { sent: self.sent + messages, ..self }
    }
}

/// These ciphertexts open, one after the other, to the parts of the plaintext
/// under the key and the counters that `m` encrypts with next.
pub open spec fn open_to_parts(
    m: TransportModel,
    plaintext: Seq<u8>,
    ciphertexts: Seq<Seq<u8>>,
) -> bool {
    &&& ciphertexts.len() == part_count(plaintext.len())
    &&& forall|i: int|
        0 <= i < ciphertexts.len() ==> {
            &&& (#[trigger] ciphertexts[i]).len() == part(plaintext, i).len() + 16
            &&& ciphertexts[i] == noise_sealed(m.send_key, m.sent + i, part(plaintext, i))
            &&& noise_opened(m.send_key, m.sent + i, ciphertexts[i]) == Some(part(plaintext, i))
        }
}

/// The contents of a list of byte strings.
pub open spec fn contents(list: Seq<Vec<u8>>) -> Seq<Seq<u8>> {
    list.map_values(|v: Vec<u8>| v@)
}

/// A session takes every message up to the longest while at least a thousand
/// counters are left to it, as after a handshake; a full chunk with each byte
/// written in four characters is among them.
pub proof fn full_chunk_is_encrypted(sender: NoiseSession, len: nat)
    requires
        sender is Transport,
        transport_model(sender->Transport_0).may_send,
        transport_model(sender->Transport_0).sent + 1000 <= u64::MAX,
        len <= 4 * CHUNK_SIZE + 4096,
    ensures
        sender.message_fault(len) is None,
{
    assert(part_count(len) <= 1000);
}

impl NoiseSession {
    /// Why a message of this length cannot be encrypted, if so.
    pub open spec fn message_fault(self, len: nat) -> Option<ErrorView> {
        if len > MAX_MESSAGE {
            Some(ErrorView::InvalidState(overlong_text(len)))
        } else {
            match self {
                NoiseSession::Handshaking(_) => Some(
                    ErrorView::InvalidState("not in transport mode"@),
                ),
                NoiseSession::Transport(ts) => if !transport_model(ts).may_send {
                    Some(ErrorView::Crypto("state error: OneWay"@))
                } else if transport_model(ts).exhausted_within(part_count(len)) {
                    Some(ErrorView::Crypto("state error: Exhausted"@))
                } else {
                    None
                },
            }
        }
    }

    /// The session after encrypting a message of this length: further by its
    /// parts, or at the end of its counter where that comes first.
    pub open spec fn after_encrypting(self, len: nat, after: NoiseSession) -> bool {
        match self {
            NoiseSession::Handshaking(_) => after == self,
            NoiseSession::Transport(ts) => {
                let m = transport_model(ts);
                &&& after matches NoiseSession::Transport(ts2)
                &&& transport_model(ts2) == (if self.message_fault(len) is None {
                    m.after_sends(part_count(len))
                } else if len <= MAX_MESSAGE && m.may_send {
                    m.after_sends((u64::MAX - m.sent) as nat)
                } else {
                    m
                })
            },
        }
    }

    /// Encrypts a message for the peer, part by part.
    pub fn encrypt_message(&mut self, plaintext: &[u8]) -> (r: Result<Vec<Vec<u8>>>)
        ensures
            old(self).after_encrypting(plaintext@.len(), *final(self)),
            match r {
                Ok(parts) => {
                    &&& old(self).message_fault(plaintext@.len()) is None
                    &&& open_to_parts(
                        transport_model((*old(self))->Transport_0),
                        plaintext@,
                        contents(parts@),
                    )
                },
                Err(e) => old(self).message_fault(plaintext@.len()) == Some(e@),
            },
    {
        if plaintext.len() > MAX_MESSAGE {
            let digits: String = decimal_string(plaintext.len() as u64);
            return Err(
                CoreError::InvalidState(
                    concat3("message length ", digits.as_str(), " exceeds max 33558528"),
                ),
            );
        }
        let whole: bool = plaintext.len() > 0 && plaintext.len() <= PART_SIZE;
        let count: usize = if whole {
            1
        } else {
            plaintext.len() / PART_SIZE + 2
        };
        let ghost m = transport_model((*old(self))->Transport_0);
        let mut parts: Vec<Vec<u8>> = Vec::new();
        let mut i: usize = 0;
        while i < count
            invariant
                plaintext@.len() <= MAX_MESSAGE,
                whole == fits(plaintext@.len()),
                count == part_count(plaintext@.len()),
                i <= count,
                parts@.len() == i,
                *old(self) is Handshaking ==> i == 0 && *self == *old(self),
                *old(self) is Transport ==> *self is Transport && transport_model(
                    (*self)->Transport_0,
                ) == m.after_sends(i as nat),
                m == transport_model((*old(self))->Transport_0),
                i > 0 ==> m.may_send && !m.exhausted_within(i as nat),
                forall|j: int|
                    0 <= j < i ==> {
                        &&& (#[trigger] parts@[j])@.len() == part(plaintext@, j).len() + 16
                        &&& parts@[j]@ == noise_sealed(m.send_key, m.sent + j, part(plaintext@, j))
                        &&& noise_opened(m.send_key, m.sent + j, parts@[j]@) == Some(
                            part(plaintext@, j),
                        )
                    },
            decreases count - i,
        {
            let start: usize = if i == 0 {
                0
            } else {
                (i - 1) * PART_SIZE
            };
            let end: usize = if whole {
                plaintext.len()
            } else if i == 0 {
                0
            } else if plaintext.len() - start >= PART_SIZE {
                start + PART_SIZE
            } else {
                plaintext.len()
            };
            let piece: &[u8] = slice_subrange(plaintext, start, end);
            assert(piece@ == part(plaintext@, i as int));
            match self.encrypt(piece) {
                Ok(c) => parts.push(c),
                Err(e) => {
                    return Err(e);
                },
            }
            i = i + 1;
        }
        Ok(parts)
    }
}

} // verus!
