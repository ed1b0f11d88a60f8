//! The frames that ciphertexts travel in on a stream: the length in four
//! bytes, least significant first, and the bytes.
use vstd::prelude::*;

use crate::bytes;
use crate::bytes::{le_u32_bytes, le_u32_value};
use crate::error::{CoreError, ErrorView, Result};
use crate::text::{concat3, decimal, decimal_string};

verus! {

/// The longest frame that is read: a chunk and a margin for what wraps it. A
/// longer one is refused before any memory is set aside for it.
pub const MAX_FRAME: usize = 8392704;

/// The framed form of `data`.
pub open spec fn framed(data: Seq<u8>) -> Seq<u8> {
    le_u32_bytes((data.len() % 4294967296) as u32) + data
}

/// The frame to write for `data`.
pub fn frame(data: &[u8]) -> (out: Vec<u8>)
    ensures
        out@ == framed(data@),
{
    let mut out: Vec<u8> = Vec::new();
    bytes::push_le_u32(&mut out, (data.len() as u64 % 4294967296) as u32);
    bytes::extend(&mut out, data);
    assert(out@ =~= framed(data@));
    out
}

/// The text of the error for a frame that is too long.
pub open spec fn oversized_text(len: int) -> Seq<char> {
    "frame length "@ + decimal(len as nat) + " exceeds max 8392704"@
}

/// How many bytes follow the first four bytes of a frame.
pub fn frame_length(header: &[u8; 4]) -> (r: Result<usize>)
    ensures
        match r {
            Ok(n) => n == le_u32_value(header@) && n <= MAX_FRAME,
            Err(e) => {
                &&& le_u32_value(header@) > MAX_FRAME
                &&& e@ == ErrorView::InvalidState(oversized_text(le_u32_value(header@)))
            },
        },
{
    let len: u32 = bytes::read_le_u32(header);
    if len as usize > MAX_FRAME {
        let digits: String = decimal_string(len as u64);
        return Err(
            CoreError::InvalidState(
                concat3("frame length ", digits.as_str(), " exceeds max 8392704"),
            ),
        );
    }
    Ok(len as usize)
}

/// A frame is read back as it was written, wherever the reader takes frames of
/// its length: the header gives the length of the data, which follows it.
pub proof fn frame_reads_back(data: Seq<u8>)
    requires
        data.len() <= MAX_FRAME,
    ensures
        le_u32_value(framed(data).take(4)) == data.len(),
        framed(data).skip(4) == data,
{
    bytes::le_u32_roundtrip(data.len() as u32);
    assert(framed(data).take(4) =~= le_u32_bytes(data.len() as u32));
    assert(framed(data).skip(4) =~= data);
}

} // verus!
