//! Byte strings: comparison, copying, and integers written as bytes.
use vstd::prelude::*;

verus! {

/// The four bytes of `x`, least significant first.
pub open spec fn le_u32_bytes(x: u32) -> Seq<u8> {
    seq![
        (x % 256) as u8,
        (x / 256 % 256) as u8,
        (x / 65536 % 256) as u8,
        (x / 16777216 % 256) as u8,
    ]
}

/// The number whose bytes are `s`, least significant first.
pub open spec fn le_u32_value(s: Seq<u8>) -> int {
    s[0] + 256 * s[1] + 65536 * s[2] + 16777216 * s[3]
}

/// The eight bytes of `x`, least significant first.
pub open spec fn le_u64_bytes(x: u64) -> Seq<u8> {
    seq![
        (x % 256) as u8,
        (x / 256 % 256) as u8,
        (x / 65536 % 256) as u8,
        (x / 16777216 % 256) as u8,
        (x / 4294967296 % 256) as u8,
        (x / 1099511627776 % 256) as u8,
        (x / 281474976710656 % 256) as u8,
        (x / 72057594037927936 % 256) as u8,
    ]
}

/// The number whose bytes are `s`, least significant first.
pub open spec fn le_u64_value(s: Seq<u8>) -> int {
    s[0] + 256 * s[1] + 65536 * s[2] + 16777216 * s[3] + 4294967296 * s[4] + 1099511627776 * s[5]
        + 281474976710656 * s[6] + 72057594037927936 * s[7]
}

/// The two bytes of `x`, most significant first.
pub open spec fn be_u16_bytes(x: u16) -> Seq<u8> {
    seq![(x / 256) as u8, (x % 256) as u8]
}

/// The number with the bytes `hi` and `lo`.
pub open spec fn be_u16_value(hi: u8, lo: u8) -> int {
    256 * hi + lo
}

/// The four bytes of `x`, most significant first.
pub open spec fn be_u32_bytes(x: u32) -> Seq<u8> {
    seq![
        (x / 16777216 % 256) as u8,
        (x / 65536 % 256) as u8,
        (x / 256 % 256) as u8,
        (x % 256) as u8,
    ]
}

/// The number whose bytes are `a`, `b`, `c`, `d`, most significant first.
pub open spec fn be_u32_value(a: u8, b: u8, c: u8, d: u8) -> int {
    16777216 * a + 65536 * b + 256 * c + d
}

/// Writing a number in four bytes and reading them back gives the number.
pub proof fn le_u32_roundtrip(x: u32)
    ensures
        le_u32_bytes(x).len() == 4,
        le_u32_value(le_u32_bytes(x)) == x,
{
}

/// Writing a number in eight bytes and reading them back gives the number.
pub proof fn le_u64_roundtrip(x: u64)
    ensures
        le_u64_bytes(x).len() == 8,
        le_u64_value(le_u64_bytes(x)) == x,
{
    let lo = (x % 4294967296) as u32;
    let hi = (x / 4294967296) as u32;
    assert(x % 256 == (x % 4294967296) % 256 && x / 256 % 256 == (x % 4294967296) / 256 % 256 && x
        / 65536 % 256 == (x % 4294967296) / 65536 % 256 && x / 16777216 % 256 == (x % 4294967296)
        / 16777216 % 256) by (bit_vector);
    assert(x / 4294967296 % 256 == (x / 4294967296) % 256 && x / 1099511627776 % 256 == (x
        / 4294967296) / 256 % 256 && x / 281474976710656 % 256 == (x / 4294967296) / 65536 % 256
        && x / 72057594037927936 % 256 == (x / 4294967296) / 16777216 % 256) by (bit_vector);
    le_u32_roundtrip(lo);
    le_u32_roundtrip(hi);
}

/// Appends the bytes of a slice to a vector.
pub fn extend(v: &mut Vec<u8>, s: &[u8])
    ensures
        final(v)@ == old(v)@ + s@,
{
    v.extend_from_slice(s);
    assert(v@ =~= old(v)@ + s@);
}

/// A vector with the bytes of a slice.
pub fn to_vec(s: &[u8]) -> (v: Vec<u8>)
    ensures
        v@ == s@,
{
    let mut v: Vec<u8> = Vec::new();
    extend(&mut v, s);
    assert(v@ =~= s@);
    v
}

/// Whether two byte strings are the same.
pub fn equal(a: &[u8], b: &[u8]) -> (r: bool)
    ensures
        r == (a@ == b@),
{
    if a.len() != b.len() {
        return false;
    }
    let mut i: usize = 0;
    while i < a.len()
        invariant
            i <= a@.len(),
            a@.len() == b@.len(),
            forall|j: int| 0 <= j < i ==> a@[j] == b@[j],
        decreases a@.len() - i,
    {
        if a[i] != b[i] {
            return false;
        }
        i = i + 1;
    }
    assert(a@ =~= b@);
    true
}

/// The 32 bytes of a slice as an array.
pub fn array32(s: &[u8]) -> (r: Option<[u8; 32]>)
    ensures
        match r {
            Some(a) => a@ == s@,
            None => s@.len() != 32,
        },
{
    if s.len() != 32 {
        return None;
    }
    let mut a: [u8; 32] = [0u8;32];
    let mut i: usize = 0;
    while i < 32
        invariant
            i <= 32,
            s@.len() == 32,
            forall|j: int| 0 <= j < i ==> a@[j] == s@[j],
        decreases 32 - i,
    {
        a[i] = s[i];
        i = i + 1;
    }
    assert(a@ =~= s@);
    Some(a)
}

/// The 12 bytes of a slice as an array.
pub fn array12(s: &[u8]) -> (r: Option<[u8; 12]>)
    ensures
        match r {
            Some(a) => a@ == s@,
            None => s@.len() != 12,
        },
{
    if s.len() != 12 {
        return None;
    }
    let mut a: [u8; 12] = [0u8;12];
    let mut i: usize = 0;
    while i < 12
        invariant
            i <= 12,
            s@.len() == 12,
            forall|j: int| 0 <= j < i ==> a@[j] == s@[j],
        decreases 12 - i,
    {
        a[i] = s[i];
        i = i + 1;
    }
    assert(a@ =~= s@);
    Some(a)
}

pub fn push_le_u32(v: &mut Vec<u8>, x: u32)
    ensures
        final(v)@ == old(v)@ + le_u32_bytes(x),
{
    v.push((x % 256) as u8);
    v.push((x / 256 % 256) as u8);
    v.push((x / 65536 % 256) as u8);
    v.push((x / 16777216 % 256) as u8);
    assert(v@ =~= old(v)@ + le_u32_bytes(x));
}

pub fn push_le_u64(v: &mut Vec<u8>, x: u64)
    ensures
        final(v)@ == old(v)@ + le_u64_bytes(x),
{
    v.push((x % 256) as u8);
    v.push((x / 256 % 256) as u8);
    v.push((x / 65536 % 256) as u8);
    v.push((x / 16777216 % 256) as u8);
    v.push((x / 4294967296 % 256) as u8);
    v.push((x / 1099511627776 % 256) as u8);
    v.push((x / 281474976710656 % 256) as u8);
    v.push((x / 72057594037927936 % 256) as u8);
    assert(v@ =~= old(v)@ + le_u64_bytes(x));
}

pub fn read_le_u32(s: &[u8]) -> (x: u32)
    requires
        s@.len() >= 4,
    ensures
        x == le_u32_value(s@),
{
    s[0] as u32 + 256 * (s[1] as u32) + 65536 * (s[2] as u32) + 16777216 * (s[3] as u32)
}

pub fn read_le_u64(s: &[u8]) -> (x: u64)
    requires
        s@.len() >= 8,
    ensures
        x == le_u64_value(s@),
{
    s[0] as u64 + 256 * (s[1] as u64) + 65536 * (s[2] as u64) + 16777216 * (s[3] as u64)
        + 4294967296 * (s[4] as u64) + 1099511627776 * (s[5] as u64) + 281474976710656 * (
    s[6] as u64) + 72057594037927936 * (s[7] as u64)
}

pub fn push_be_u16(v: &mut Vec<u8>, x: u16)
    ensures
        final(v)@ == old(v)@ + be_u16_bytes(x),
{
    v.push((x / 256) as u8);
    v.push((x % 256) as u8);
    assert(v@ =~= old(v)@ + be_u16_bytes(x));
}

pub fn push_be_u32(v: &mut Vec<u8>, x: u32)
    ensures
        final(v)@ == old(v)@ + be_u32_bytes(x),
{
    v.push((x / 16777216 % 256) as u8);
    v.push((x / 65536 % 256) as u8);
    v.push((x / 256 % 256) as u8);
    v.push((x % 256) as u8);
    assert(v@ =~= old(v)@ + be_u32_bytes(x));
}

pub fn read_be_u16(hi: u8, lo: u8) -> (x: u16)
    ensures
        x == be_u16_value(hi, lo),
{
    256 * (hi as u16) + lo as u16
}

pub fn read_be_u32(a: u8, b: u8, c: u8, d: u8) -> (x: u32)
    ensures
        x == be_u32_value(a, b, c, d),
{
    16777216 * (a as u32) + 65536 * (b as u32) + 256 * (c as u32) + d as u32
}

} // verus!
