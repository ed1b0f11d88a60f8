//! One authenticated session with a peer: the keys of its transport and the
//! way its bytes leave the device.
use vstd::prelude::*;

use crate::bytes;
use crate::error::{ErrorView, Result};
use crate::message_parts::{
    before_part, contents, open_to_parts, part, part_count, parts_make_up_the_message, MAX_MESSAGE,
    PART_SIZE,
};
use crate::noise_session::{transport_model, NoiseSession};
use crate::signaling::SignalingMessage;
use crate::str_map::StrMap;

verus! {

/// How long the reader of a stream waits for the other streams of its session
/// to go on, in seconds, before it gives up on a ciphertext that does not
/// decrypt: what was encrypted earlier may arrive later on another stream.
pub const ORDER_WAIT_SECS: u64 = 10;

/// Where the encrypted bytes of a session travel. Everything above this is the
/// same on either path.
pub enum OutboundPath {
    /// A direct connection, with one control stream and one stream for each
    /// transfer.
    Quic,
    /// The signaling server forwards the bytes of this relay session.
    Relay { session_id: String },
}

pub struct PeerSession {
    pub device_id: String,
    pub noise: NoiseSession,
    pub outbound: OutboundPath,
    /// The transfers that have a stream of their own.
    pub transfer_streams: StrMap<()>,
    /// What has arrived so far of a long message of the peer, from its opening
    /// on. The peer encrypts the parts of a message one after the other, and
    /// they decrypt in that order only, so there is one such message at a time.
    pub partial: Option<Vec<u8>>,
}

/// An encrypted message on its way out, in as many parts as it takes.
pub enum Outbound {
    /// Write each to the stream, in a frame of its own.
    Control(Vec<Vec<u8>>),
    /// Send each to the signaling server.
    Relay(Vec<SignalingMessage>),
}

/// These are the ciphertexts on their way over this path, in order.
pub open spec fn carried(path: OutboundPath, ciphertexts: Seq<Seq<u8>>, out: Outbound) -> bool {
    match path {
        OutboundPath::Quic => out matches Outbound::Control(c) && contents(c@) == ciphertexts,
        OutboundPath::Relay { session_id } => {
            &&& out matches Outbound::Relay(messages)
            &&& messages@.len() == ciphertexts.len()
            &&& forall|i: int|
                0 <= i < messages@.len() ==> {
                    &&& #[trigger] messages@[i] matches SignalingMessage::RelayData {
                        session_id: to,
                        data,
                    }
                    &&& to == session_id
                    &&& data@ == ciphertexts[i]
                }
        },
    }
}

/// A message on its way over this path opens, part by part, to the plaintext
/// under the key and the counters that `sender` encrypts with next.
pub open spec fn reaches(
    sender: NoiseSession,
    path: OutboundPath,
    plaintext: Seq<u8>,
    out: Outbound,
) -> bool {
    &&& sender is Transport
    &&& exists|ciphertexts: Seq<Seq<u8>>|
        {
            &&& #[trigger] open_to_parts(
                transport_model(sender->Transport_0),
                plaintext,
                ciphertexts,
            )
            &&& carried(path, ciphertexts, out)
        }
}

/// What came of a ciphertext of the peer.
pub enum Received {
    /// It was a part of a message, and more are to come.
    More,
    /// It was the last part: this is the message.
    Message(Vec<u8>),
    /// It did not decrypt, or the message has become too long. The stream is
    /// out of step, or not the peer's: stop reading.
    Stop,
}

/// `r` is what comes of a ciphertext, and `after` is the session after it.
pub open spec fn received(
    before: PeerSession,
    ciphertext: Seq<u8>,
    after: PeerSession,
    r: Received,
) -> bool {
    &&& after.same_path(before)
    &&& before.noise.after_decryption(ciphertext, after.noise)
    &&& match before.noise.decryption(ciphertext) {
        Err(_) => r is Stop && after.partial == before.partial,
        Ok(p) => match before.partial {
            None => if p.len() == 0 {
                &&& r is More
                &&& after.partial matches Some(so_far)
                &&& so_far@ == Seq::<u8>::empty()
            } else {
                &&& r matches Received::Message(message)
                &&& message@ == p
                &&& after.partial is None
            },
            Some(so_far) => if so_far@.len() + p.len() > MAX_MESSAGE {
                r is Stop && after.partial == before.partial
            } else if p.len() == PART_SIZE {
                &&& r is More
                &&& after.partial matches Some(longer)
                &&& longer@ == so_far@ + p
            } else {
                &&& r matches Received::Message(message)
                &&& message@ == so_far@ + p
                &&& after.partial is None
            },
        },
    }
}

/// What one side of a session sends, the other side receives as it was sent,
/// while the two are in step: whatever its length, up to the longest message,
/// nothing comes of its parts before the last, and of that the whole message.
/// Then the two are in step again. `ciphertexts` is what
/// [`PeerSession::send_message`] makes of `plaintext`, and `steps` and
/// `results` are what [`PeerSession::receive`] makes of them.
pub proof fn sent_message_is_received(
    sender: NoiseSession,
    plaintext: Seq<u8>,
    ciphertexts: Seq<Seq<u8>>,
    steps: Seq<PeerSession>,
    results: Seq<Received>,
)
    requires
        sender.message_fault(plaintext.len()) is None,
        open_to_parts(transport_model(sender->Transport_0), plaintext, ciphertexts),
        steps.len() == ciphertexts.len() + 1,
        results.len() == ciphertexts.len(),
        steps[0].noise is Transport,
        transport_model(sender->Transport_0).feeds(transport_model(steps[0].noise->Transport_0)),
        transport_model(steps[0].noise->Transport_0).may_receive,
        steps[0].partial is None,
        forall|i: int|
            0 <= i < results.len() ==> received(
                steps[i],
                ciphertexts[i],
                steps[i + 1],
                #[trigger] results[i],
            ),
    ensures
        forall|i: int| 0 <= i < results.len() - 1 ==> #[trigger] results[i] is More,
        results.last() matches Received::Message(message) && message@ == plaintext,
        steps.last().partial is None,
        steps.last().noise is Transport,
        transport_model(sender->Transport_0).after_sends(part_count(plaintext.len())).feeds(
            transport_model(steps.last().noise->Transport_0),
        ),
{
    let n = ciphertexts.len() as int;
    parts_make_up_the_message(plaintext, 0);
    lemma_parts_received(sender, plaintext, ciphertexts, steps, results, n - 1);
    lemma_part_received(sender, plaintext, ciphertexts, steps, results, n - 1);
    assert forall|i: int| 0 <= i < results.len() - 1 implies #[trigger] results[i] is More by {
        lemma_parts_received(sender, plaintext, ciphertexts, steps, results, i);
        lemma_part_received(sender, plaintext, ciphertexts, steps, results, i);
    }
}

/// A ciphertext that does not decrypt, because its turn has not come or because
/// it is not the peer's, changes nothing: what would have been received before
/// it is received after it. So the reader of one stream can try it again once
/// the reader of another has gone on.
pub proof fn refused_ciphertext_changes_nothing(
    before: PeerSession,
    ciphertext: Seq<u8>,
    after: PeerSession,
    r: Received,
    other: Seq<u8>,
)
    requires
        received(before, ciphertext, after, r),
        before.noise.decryption(ciphertext) is Err,
    ensures
        r is Stop,
        after.same_path(before),
        after.partial == before.partial,
        after.noise.decryption(other) == before.noise.decryption(other),
{
}

/// The receiver has taken in the first `i` parts and is ready for the next.
spec fn took_in(sender: NoiseSession, receiver: PeerSession, plaintext: Seq<u8>, i: int) -> bool {
    let m = transport_model(receiver.noise->Transport_0);
    &&& receiver.noise is Transport
    &&& m.may_receive
    &&& m.receive_key == transport_model(sender->Transport_0).send_key
    &&& m.received == transport_model(sender->Transport_0).sent + i
    &&& match receiver.partial {
        None => i == 0,
        Some(so_far) => i > 0 && so_far@ == before_part(plaintext, i),
    }
}

/// What comes of the part number `i`.
proof fn lemma_part_received(
    sender: NoiseSession,
    plaintext: Seq<u8>,
    ciphertexts: Seq<Seq<u8>>,
    steps: Seq<PeerSession>,
    results: Seq<Received>,
    i: int,
)
    requires
        0 <= i < ciphertexts.len(),
        steps.len() == ciphertexts.len() + 1,
        results.len() == ciphertexts.len(),
        sender.message_fault(plaintext.len()) is None,
        open_to_parts(transport_model(sender->Transport_0), plaintext, ciphertexts),
        took_in(sender, steps[i], plaintext, i),
        received(steps[i], ciphertexts[i], steps[i + 1], results[i]),
    ensures
        i + 1 < ciphertexts.len() ==> results[i] is More && took_in(
            sender,
            steps[i + 1],
            plaintext,
            i + 1,
        ),
        i + 1 == ciphertexts.len() ==> {
            &&& results[i] matches Received::Message(message) && message@ == plaintext
            &&& steps[i + 1].partial is None
            &&& steps[i + 1].noise is Transport
            &&& transport_model(sender->Transport_0).after_sends(part_count(plaintext.len())).feeds(
                transport_model(steps[i + 1].noise->Transport_0),
            )
        },
{
    parts_make_up_the_message(plaintext, i);
    assert(steps[i].noise.decryption(ciphertexts[i]) == Ok::<_, ErrorView>(part(plaintext, i)));
    if i > 0 {
        assert(before_part(plaintext, i).len() + part(plaintext, i).len() <= plaintext.len());
    }
}

/// Where the receiver is before the part number `i`.
proof fn lemma_parts_received(
    sender: NoiseSession,
    plaintext: Seq<u8>,
    ciphertexts: Seq<Seq<u8>>,
    steps: Seq<PeerSession>,
    results: Seq<Received>,
    i: int,
)
    requires
        0 <= i < ciphertexts.len(),
        steps.len() == ciphertexts.len() + 1,
        results.len() == ciphertexts.len(),
        sender.message_fault(plaintext.len()) is None,
        open_to_parts(transport_model(sender->Transport_0), plaintext, ciphertexts),
        took_in(sender, steps[0], plaintext, 0),
        forall|j: int|
            0 <= j < results.len() ==> received(
                steps[j],
                ciphertexts[j],
                steps[j + 1],
                #[trigger] results[j],
            ),
    ensures
        took_in(sender, steps[i], plaintext, i),
    decreases i,
{
    if i > 0 {
        lemma_parts_received(sender, plaintext, ciphertexts, steps, results, i - 1);
        assert(received(steps[i - 1], ciphertexts[i - 1], steps[i], results[i - 1]));
        lemma_part_received(sender, plaintext, ciphertexts, steps, results, i - 1);
    }
}

/// Which stream the chunks of a transfer go over.
#[derive(Debug, Clone, Copy, PartialEq, Eq, Structural)]
pub enum StreamChoice {
    /// A relay has no streams: they go the way of all messages.
    Relay,
    /// The transfer's own stream, which is open.
    Existing,
    /// A stream has to be opened for the transfer.
    Open,
}

/// What the writer of a stream does with a message.
pub enum ForwardStep {
    /// The message could not be encoded: leave it out.
    Skip,
    /// The session cannot encrypt any more: stop writing.
    Stop,
    /// Write this.
    Write(Outbound),
}

impl PeerSession {
    pub fn new_direct(device_id: String, noise: NoiseSession) -> (r: Self)
        ensures
            r.device_id == device_id,
            r.noise == noise,
            r.outbound is Quic,
            r.transfer_streams@ == Map::<Seq<char>, ()>::empty(),
            r.partial is None,
    {
        PeerSession {
            device_id,
            noise,
            outbound: OutboundPath::Quic,
            transfer_streams: StrMap::new(),
            partial: None,
        }
    }

    pub fn new_relayed(device_id: String, noise: NoiseSession, session_id: String) -> (r: Self)
        ensures
            r.device_id == device_id,
            r.noise == noise,
            r.outbound == (OutboundPath::Relay { session_id }),
            r.transfer_streams@ == Map::<Seq<char>, ()>::empty(),
            r.partial is None,
    {
        PeerSession {
            device_id,
            noise,
            outbound: OutboundPath::Relay { session_id },
            transfer_streams: StrMap::new(),
            partial: None,
        }
    }

    /// Whether the session has a direct connection.
    pub fn is_direct(&self) -> (b: bool)
        ensures
            b == (self.outbound is Quic),
    {
        match self.outbound {
            OutboundPath::Quic => true,
            OutboundPath::Relay { .. } => false,
        }
    }

    /// The ciphertexts on their path.
    fn carry(&self, ciphertexts: Vec<Vec<u8>>) -> (out: Outbound)
        ensures
            carried(self.outbound, contents(ciphertexts@), out),
    {
        match &self.outbound {
            OutboundPath::Quic => Outbound::Control(ciphertexts),
            OutboundPath::Relay { session_id } => {
                let mut messages: Vec<SignalingMessage> = Vec::new();
                let mut i: usize = 0;
                while i < ciphertexts.len()
                    invariant
                        i <= ciphertexts@.len(),
                        messages@.len() == i,
                        forall|j: int|
                            0 <= j < i ==> {
                                &&& #[trigger] messages@[j] matches SignalingMessage::RelayData {
                                    session_id: to,
                                    data,
                                }
                                &&& to == *session_id
                                &&& data@ == ciphertexts@[j]@
                            },
                    decreases ciphertexts@.len() - i,
                {
                    messages.push(
                        SignalingMessage::RelayData {
                            session_id: session_id.clone(),
                            data: bytes::to_vec(ciphertexts[i].as_slice()),
                        },
                    );
                    i = i + 1;
                }
                Outbound::Relay(messages)
            },
        }
    }

    /// Only the keys' counters and what has arrived in part differ.
    pub open spec fn same_path(self, other: PeerSession) -> bool {
        &&& self.device_id == other.device_id
        &&& self.outbound == other.outbound
        &&& self.transfer_streams == other.transfer_streams
    }

    /// Encrypts an encoded message and addresses it. A message of up to
    /// [`MAX_MESSAGE`] bytes goes out as long as the session's counter lasts.
    pub fn send_message(&mut self, plaintext: &[u8]) -> (r: Result<Outbound>)
        ensures
            final(self).same_path(*old(self)),
            final(self).partial == old(self).partial,
            old(self).noise.after_encrypting(plaintext@.len(), final(self).noise),
            match r {
                Ok(out) => {
                    &&& old(self).noise.message_fault(plaintext@.len()) is None
                    &&& reaches(old(self).noise, old(self).outbound, plaintext@, out)
                },
                Err(e) => old(self).noise.message_fault(plaintext@.len()) == Some(e@),
            },
    {
        match self.noise.encrypt_message(plaintext) {
            Ok(ciphertexts) => Ok(self.carry(ciphertexts)),
            Err(e) => Err(e),
        }
    }

    /// Decrypts what arrived from the peer.
    pub fn receive(&mut self, ciphertext: &[u8]) -> (r: Received)
        ensures
            received(*old(self), ciphertext@, *final(self), r),
    {
        match self.noise.decrypt(ciphertext) {
            Ok(p) => match self.partial.take() {
                None => {
                    if p.len() == 0 {
                        assert(p@ =~= Seq::<u8>::empty());
                        self.partial = Some(p);
                        return Received::More;
                    }
                    Received::Message(p)
                },
                Some(so_far) => {
                    let mut message: Vec<u8> = so_far;
                    if p.len() > MAX_MESSAGE || message.len() > MAX_MESSAGE - p.len() {
                        self.partial = Some(message);
                        return Received::Stop;
                    }
                    bytes::extend(&mut message, p.as_slice());
                    if p.len() == PART_SIZE {
                        self.partial = Some(message);
                        return Received::More;
                    }
                    Received::Message(message)
                },
            },
            Err(_) => Received::Stop,
        }
    }

    /// The stream for the chunks of a transfer.
    pub fn transfer_stream(&self, transfer_id: &String) -> (r: StreamChoice)
        ensures
            r == (if self.outbound is Relay {
                StreamChoice::Relay
            } else if self.transfer_streams@.contains_key(transfer_id@) {
                StreamChoice::Existing
            } else {
                StreamChoice::Open
            }),
    {
        match self.outbound {
            OutboundPath::Relay { .. } => StreamChoice::Relay,
            OutboundPath::Quic => if self.transfer_streams.contains_key(transfer_id) {
                StreamChoice::Existing
            } else {
                StreamChoice::Open
            },
        }
    }

    /// A stream was opened for a transfer; its other chunks use it too.
    pub fn stream_opened(&mut self, transfer_id: String)
        ensures
            final(self).device_id == old(self).device_id,
            final(self).noise == old(self).noise,
            final(self).outbound == old(self).outbound,
            final(self).partial == old(self).partial,
            final(self).transfer_streams@ == old(self).transfer_streams@.insert(transfer_id@, ()),
    {
        self.transfer_streams.insert(transfer_id, ());
    }

    /// Forgets the stream of a transfer that is over.
    pub fn close_transfer_stream(&mut self, transfer_id: &String)
        ensures
            final(self).device_id == old(self).device_id,
            final(self).noise == old(self).noise,
            final(self).outbound == old(self).outbound,
            final(self).partial == old(self).partial,
            final(self).transfer_streams@ == old(self).transfer_streams@.remove(transfer_id@),
    {
        let _ = self.transfer_streams.remove(transfer_id);
    }

    /// What the writer of a transfer's stream does with the next message, given
    /// its encoding: one that could not be encoded is left out, and a session
    /// that cannot encrypt ends the stream.
    pub fn forward(&mut self, encoded: Option<&[u8]>) -> (r: ForwardStep)
        ensures
            final(self).same_path(*old(self)),
            final(self).partial == old(self).partial,
            match encoded {
                Some(plaintext) => {
                    &&& old(self).noise.after_encrypting(plaintext@.len(), final(self).noise)
                    &&& match r {
                        ForwardStep::Write(out) => {
                            &&& old(self).noise.message_fault(plaintext@.len()) is None
                            &&& reaches(old(self).noise, old(self).outbound, plaintext@, out)
                        },
                        ForwardStep::Stop => old(self).noise.message_fault(
                            plaintext@.len(),
                        ) is Some,
                        ForwardStep::Skip => false,
                    }
                },
                None => r is Skip && final(self).noise == old(self).noise,
            },
    {
        match encoded {
            Some(plaintext) => match self.send_message(plaintext) {
                Ok(out) => ForwardStep::Write(out),
                Err(_) => ForwardStep::Stop,
            },
            None => ForwardStep::Skip,
        }
    }
}

} // verus!
