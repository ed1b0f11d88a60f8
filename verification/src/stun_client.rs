//! A minimal STUN client: the request that asks for this device's public
//! address, and the parser of the answer. The format is a header of 20 bytes
//! and a list of attributes, each with a type, a length and a padded value.
use rand::Rng;
use vstd::prelude::*;

use crate::bytes;
use crate::bytes::{be_u16_bytes, be_u16_value, be_u32_bytes, be_u32_value};
use crate::error::{CoreError, ErrorView, Result};
use crate::text::{concat2, decimal, decimal_string, hex_u16, hex_u16_string};

verus! {

pub const STUN_MAGIC_COOKIE: u32 = 0x2112A442;

pub const STUN_BINDING_REQUEST: u16 = 0x0001;

pub const STUN_BINDING_RESPONSE: u16 = 0x0101;

pub const ATTR_XOR_MAPPED_ADDRESS: u16 = 0x0020;

pub const ATTR_MAPPED_ADDRESS: u16 = 0x0001;

/// How long the answer of a server is waited for, in seconds.
pub const STUN_TIMEOUT_SECS: u64 = 3;

/// An IPv4 address and a port.
#[derive(Debug, Clone, Copy, PartialEq, Eq)]
pub struct Ipv4Endpoint {
    pub ip: [u8; 4],
    pub port: u16,
}

impl View for Ipv4Endpoint {
    type V = (Seq<u8>, u16);

    open spec fn view(&self) -> (Seq<u8>, u16) {
        (self.ip@, self.port)
    }
}

/// An endpoint as text, such as `192.0.2.1:80`.
pub open spec fn endpoint_text(e: (Seq<u8>, u16)) -> Seq<char> {
    decimal(e.0[0] as nat) + "."@ + decimal(e.0[1] as nat) + "."@ + decimal(e.0[2] as nat) + "."@
        + decimal(e.0[3] as nat) + ":"@ + decimal(e.1 as nat)
}

impl Ipv4Endpoint {
    pub fn to_text(&self) -> (s: String)
        ensures
            s@ == endpoint_text(self@),
    {
        let mut s: String = decimal_string(self.ip[0] as u64);
        s.append(".");
        s.append(decimal_string(self.ip[1] as u64).as_str());
        s.append(".");
        s.append(decimal_string(self.ip[2] as u64).as_str());
        s.append(".");
        s.append(decimal_string(self.ip[3] as u64).as_str());
        s.append(":");
        s.append(decimal_string(self.port as u64).as_str());
        s
    }
}

/// `Rng::fill` of `rand::thread_rng`: twelve random bytes for a request.
/// Nothing is known of their value.
#[verifier::external_body]
fn random_transaction_id() -> [u8; 12] {
    let mut id = [0u8; 12];
    rand::thread_rng().fill(&mut id);
    id
}

/// A fresh identifier for a request; the answer has to repeat it.
pub fn generate_transaction_id() -> (id: [u8; 12])
    ensures
        id@.len() == 12,
{
    random_transaction_id()
}

/// The request: type, length zero, magic cookie, transaction.
pub open spec fn binding_request(transaction_id: Seq<u8>) -> Seq<u8> {
    be_u16_bytes(STUN_BINDING_REQUEST) + be_u16_bytes(0) + be_u32_bytes(STUN_MAGIC_COOKIE)
        + transaction_id
}

pub fn build_binding_request(transaction_id: &[u8; 12]) -> (msg: Vec<u8>)
    ensures
        msg@ == binding_request(transaction_id@),
        msg@.len() == 20,
{
    let mut msg: Vec<u8> = Vec::new();
    bytes::push_be_u16(&mut msg, STUN_BINDING_REQUEST);
    bytes::push_be_u16(&mut msg, 0);
    bytes::push_be_u32(&mut msg, STUN_MAGIC_COOKIE);
    bytes::extend(&mut msg, transaction_id);
    assert(msg@ =~= binding_request(transaction_id@));
    msg
}

/// A value that holds an IPv4 address: eight bytes, with the family in the
/// second.
pub open spec fn holds_ipv4(value: Seq<u8>) -> bool {
    value.len() >= 8 && value[1] == 1
}

/// The endpoint in a plain address attribute.
pub open spec fn mapped_address(value: Seq<u8>) -> Option<(Seq<u8>, u16)> {
    if holds_ipv4(value) {
        Some((value.subrange(4, 8), be_u16_value(value[2], value[3]) as u16))
    } else {
        None
    }
}

/// The endpoint in an address attribute whose port and address are combined
/// with the magic cookie.
pub open spec fn xor_mapped_address(value: Seq<u8>) -> Option<(Seq<u8>, u16)> {
    if holds_ipv4(value) {
        Some(
            (
                seq![
                    value[4] ^ 0x21u8,
                    value[5] ^ 0x12u8,
                    value[6] ^ 0xA4u8,
                    value[7] ^ 0x42u8,
                ],
                (be_u16_value(value[2], value[3]) as u16) ^ 0x2112u16,
            ),
        )
    } else {
        None
    }
}

/// Only IPv4 is read. The transaction would be needed for IPv6 alone.
pub fn parse_xor_mapped_address(value: &[u8], transaction_id: &[u8; 12]) -> (r: Option<
    Ipv4Endpoint,
>)
    ensures
        match r {
            Some(e) => xor_mapped_address(value@) == Some(e@),
            None => xor_mapped_address(value@) is None,
        },
{
    let _ = transaction_id;
    if value.len() < 8 || value[1] != 0x01 {
        return None;
    }
    let xport: u16 = bytes::read_be_u16(value[2], value[3]);
    let e = Ipv4Endpoint {
        ip: [value[4] ^ 0x21u8, value[5] ^ 0x12u8, value[6] ^ 0xA4u8, value[7] ^ 0x42u8],
        port: xport ^ 0x2112u16,
    };
    assert(e@.0 =~= xor_mapped_address(value@)->Some_0.0);
    Some(e)
}

pub fn parse_mapped_address(value: &[u8]) -> (r: Option<Ipv4Endpoint>)
    ensures
        match r {
            Some(e) => mapped_address(value@) == Some(e@),
            None => mapped_address(value@) is None,
        },
{
    if value.len() < 8 || value[1] != 0x01 {
        return None;
    }
    let e = Ipv4Endpoint {
        ip: [value[4], value[5], value[6], value[7]],
        port: bytes::read_be_u16(value[2], value[3]),
    };
    assert(e@.0 =~= value@.subrange(4, 8));
    Some(e)
}

/// The attributes between `offset` and `end`: type and value of each, as far
/// as they are whole.
pub open spec fn attributes(data: Seq<u8>, offset: int, end: int) -> Seq<(int, Seq<u8>)>
    decreases
            (if end > offset {
                end - offset
            } else {
                0
            }),
{
    if offset + 4 > end {
        Seq::empty()
    } else {
        let len = be_u16_value(data[offset + 2], data[offset + 3]);
        let start = offset + 4;
        if start + len > data.len() {
            Seq::empty()
        } else {
            seq![(be_u16_value(data[offset], data[offset + 1]), data.subrange(start, start + len))]
                + attributes(data, start + padded(len), end)
        }
    }
}

/// A length rounded up to a multiple of four.
pub open spec fn padded(len: int) -> int {
    (len + 3) / 4 * 4
}

/// The address in the last attribute of the combined kind that holds one.
pub open spec fn last_xor_mapped(attrs: Seq<(int, Seq<u8>)>) -> Option<(Seq<u8>, u16)>
    decreases attrs.len(),
{
    if attrs.len() == 0 {
        None
    } else if attrs.last().0 == ATTR_XOR_MAPPED_ADDRESS && xor_mapped_address(
        attrs.last().1,
    ) is Some {
        xor_mapped_address(attrs.last().1)
    } else {
        last_xor_mapped(attrs.drop_last())
    }
}

/// The address in the last attribute of the plain kind that holds one.
pub open spec fn last_mapped(attrs: Seq<(int, Seq<u8>)>) -> Option<(Seq<u8>, u16)>
    decreases attrs.len(),
{
    if attrs.len() == 0 {
        None
    } else if attrs.last().0 == ATTR_MAPPED_ADDRESS && mapped_address(attrs.last().1) is Some {
        mapped_address(attrs.last().1)
    } else {
        last_mapped(attrs.drop_last())
    }
}

/// Where the attributes of an answer end: where its header says, but not
/// beyond the bytes that arrived.
pub open spec fn attributes_end(data: Seq<u8>) -> int {
    let said = 20 + be_u16_value(data[2], data[3]);
    if said < data.len() {
        said
    } else {
        data.len() as int
    }
}

/// What an answer says, or why it is refused. The combined kind of address
/// goes before the plain one.
pub open spec fn binding_answer(
    data: Seq<u8>,
    transaction_id: Seq<u8>,
) -> core::result::Result<(Seq<u8>, u16), ErrorView> {
    if data.len() < 20 {
        Err(ErrorView::InvalidState("STUN response too short"@))
    } else if be_u16_value(data[0], data[1]) != STUN_BINDING_RESPONSE {
        Err(
            ErrorView::InvalidState(
                "unexpected STUN message type: "@ + hex_u16(
                    be_u16_value(data[0], data[1]) as u16,
                ),
            ),
        )
    } else if be_u32_value(data[4], data[5], data[6], data[7]) != STUN_MAGIC_COOKIE {
        Err(ErrorView::InvalidState("STUN magic cookie mismatch"@))
    } else if data.subrange(8, 20) != transaction_id {
        Err(
            ErrorView::InvalidState(
                "STUN transaction ID mismatch (response to a different request?)"@,
            ),
        )
    } else {
        let attrs = attributes(data, 20, attributes_end(data));
        if last_xor_mapped(attrs) is Some {
            Ok(last_xor_mapped(attrs)->Some_0)
        } else if last_mapped(attrs) is Some {
            Ok(last_mapped(attrs)->Some_0)
        } else {
            Err(ErrorView::InvalidState("STUN response had no mapped address"@))
        }
    }
}

/// An optional endpoint has this view.
pub open spec fn found(e: Option<Ipv4Endpoint>, v: Option<(Seq<u8>, u16)>) -> bool {
    match e {
        Some(x) => v == Some(x@),
        None => v is None,
    }
}

/// Reads the answer to the request with this transaction.
pub fn parse_binding_response(data: &[u8], expected_transaction_id: &[u8; 12]) -> (r: Result<
    Ipv4Endpoint,
>)
    ensures
        match r {
            Ok(e) => binding_answer(data@, expected_transaction_id@) == Ok::<_, ErrorView>(e@),
            Err(e) => binding_answer(data@, expected_transaction_id@) == Err::<(Seq<u8>, u16), _>(
                e@,
            ),
        },
{
    if data.len() < 20 {
        return Err(CoreError::invalid_state("STUN response too short"));
    }
    let message_type: u16 = bytes::read_be_u16(data[0], data[1]);
    if message_type != STUN_BINDING_RESPONSE {
        return Err(
            CoreError::InvalidState(
                concat2(
                    "unexpected STUN message type: ",
                    hex_u16_string(message_type).as_str(),
                ),
            ),
        );
    }
    let message_length: usize = bytes::read_be_u16(data[2], data[3]) as usize;
    let magic_cookie: u32 = bytes::read_be_u32(data[4], data[5], data[6], data[7]);
    if magic_cookie != STUN_MAGIC_COOKIE {
        return Err(CoreError::invalid_state("STUN magic cookie mismatch"));
    }
    let transaction_id: &[u8] = &data[8..20];
    if !bytes::equal(transaction_id, expected_transaction_id) {
        return Err(
            CoreError::invalid_state(
                "STUN transaction ID mismatch (response to a different request?)",
            ),
        );
    }
    let attrs_end: usize = if 20 + message_length < data.len() {
        20 + message_length
    } else {
        data.len()
    };
    let mut offset: usize = 20;
    let mut mapped: Option<Ipv4Endpoint> = None;
    let mut xor_mapped: Option<Ipv4Endpoint> = None;
    let ghost all = attributes(data@, 20, attrs_end as int);
    let ghost mut seen: Seq<(int, Seq<u8>)> = Seq::empty();
    assert(all =~= seen + attributes(data@, 20, attrs_end as int));
    while offset + 4 <= attrs_end
        invariant
            attrs_end <= data@.len(),
            attrs_end <= 65555,
            offset <= 200000,
            all == seen + attributes(data@, offset as int, attrs_end as int),
            found(xor_mapped, last_xor_mapped(seen)),
            found(mapped, last_mapped(seen)),
        ensures
            all == seen,
            found(xor_mapped, last_xor_mapped(seen)),
            found(mapped, last_mapped(seen)),
        decreases 200000 - offset,
    {
        let attr_type: u16 = bytes::read_be_u16(data[offset], data[offset + 1]);
        let attr_len: usize = bytes::read_be_u16(data[offset + 2], data[offset + 3]) as usize;
        let value_start: usize = offset + 4;
        let value_end: usize = value_start + attr_len;
        if value_end > data.len() {
            assert(all =~= seen);
            break;
        }
        let value: &[u8] = &data[value_start..value_end];
        if attr_type == ATTR_XOR_MAPPED_ADDRESS {
            if let Some(addr) = parse_xor_mapped_address(value, expected_transaction_id) {
                xor_mapped = Some(addr);
            }
        } else if attr_type == ATTR_MAPPED_ADDRESS {
            if let Some(addr) = parse_mapped_address(value) {
                mapped = Some(addr);
            }
        }
        let padded_len: usize = (attr_len + 3) / 4 * 4;
        proof {
            let one = (attr_type as int, value@);
            assert(seen.push(one).drop_last() =~= seen);
            assert(all =~= seen.push(one) + attributes(
                data@,
                value_start + padded_len,
                attrs_end as int,
            ));
            seen = seen.push(one);
        }
        offset = value_start + padded_len;
        assert(all == seen + attributes(data@, offset as int, attrs_end as int));
    }
    match xor_mapped {
        Some(e) => Ok(e),
        None => match mapped {
            Some(e) => Ok(e),
            None => Err(CoreError::invalid_state("STUN response had no mapped address")),
        },
    }
}

/// The attribute value that says an endpoint in the combined form.
pub open spec fn xor_mapped_value(ip: Seq<u8>, port: u16) -> Seq<u8> {
    seq![0u8, 1u8] + be_u16_bytes(port ^ 0x2112u16) + seq![
        ip[0] ^ 0x21u8,
        ip[1] ^ 0x12u8,
        ip[2] ^ 0xA4u8,
        ip[3] ^ 0x42u8,
    ]
}

/// An endpoint that was combined with the cookie is read back as it was.
pub proof fn xor_mapped_roundtrip(ip: Seq<u8>, port: u16)
    requires
        ip.len() == 4,
    ensures
        xor_mapped_address(xor_mapped_value(ip, port)) == Some((ip, port)),
{
    let v = xor_mapped_value(ip, port);
    let x = port ^ 0x2112u16;
    assert(be_u16_value(v[2], v[3]) == x);
    assert((port ^ 0x2112u16) ^ 0x2112u16 == port) by (bit_vector);
    let (a, b, c, d) = (ip[0], ip[1], ip[2], ip[3]);
    assert((a ^ 0x21u8) ^ 0x21u8 == a) by (bit_vector);
    assert((b ^ 0x12u8) ^ 0x12u8 == b) by (bit_vector);
    assert((c ^ 0xA4u8) ^ 0xA4u8 == c) by (bit_vector);
    assert((d ^ 0x42u8) ^ 0x42u8 == d) by (bit_vector);
    assert(xor_mapped_address(v)->Some_0.0 =~= ip);
}

/// An answer to another request is refused, whatever else it holds.
pub proof fn foreign_answer_is_refused(data: Seq<u8>, transaction_id: Seq<u8>)
    requires
        data.len() >= 20,
        data.subrange(8, 20) != transaction_id,
    ensures
        binding_answer(data, transaction_id) is Err,
{
}

/// The servers that are asked, in this order.
pub open spec fn stun_server(i: int) -> Seq<char> {
    if i == 0 {
        "stun.l.google.com:19302"@
    } else {
        "stun1.l.google.com:19302"@
    }
}

/// The search for this device's public address: one server after the other
/// until one answers.
pub struct StunSearch {
    pub asked: usize,
    pub last_error: Option<CoreError>,
}

impl StunSearch {
    pub fn new() -> (r: Self)
        ensures
            r.asked == 0,
            r.last_error is None,
    {
        StunSearch { asked: 0, last_error: None }
    }

    /// The server to ask next, while there is one.
    pub fn next_server(&self) -> (r: Option<&'static str>)
        ensures
            match r {
                Some(s) => self.asked < 2 && s@ == stun_server(self.asked as int),
                None => self.asked >= 2,
            },
    {
        if self.asked == 0 {
            Some("stun.l.google.com:19302")
        } else if self.asked == 1 {
            Some("stun1.l.google.com:19302")
        } else {
            None
        }
    }

    /// The server that was asked last gave no address.
    pub fn failed(&mut self, error: CoreError)
        requires
            old(self).asked < 2,
        ensures
            final(self).asked == old(self).asked + 1,
            final(self).last_error == Some(error),
    {
        self.asked = self.asked + 1;
        self.last_error = Some(error);
    }

    /// The error of a search that found nothing: that of the last server.
    pub fn into_error(self) -> (e: CoreError)
        ensures
            match self.last_error {
                Some(last) => e == last,
                None => e@ == ErrorView::InvalidState("no STUN servers configured"@),
            },
    {
        match self.last_error {
            Some(e) => e,
            None => CoreError::invalid_state("no STUN servers configured"),
        }
    }
}

} // verus!
