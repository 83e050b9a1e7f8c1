//! Little-endian encoding of 32-bit values, as the inter-board packets carry them.
use vstd::prelude::*;

verus! {

/// Little-endian bytes of a 32-bit word.
pub open spec fn le32(v: u32) -> [u8; 4] {
    [(v & 0xff) as u8, ((v >> 8u32) & 0xff) as u8, ((v >> 16u32) & 0xff) as u8, ((v >> 24u32) & 0xff) as u8]
}

/// The 32-bit word with these little-endian bytes.
pub open spec fn u32_from_le(b: [u8; 4]) -> u32 {
    (b[0] as u32) | ((b[1] as u32) << 8u32) | ((b[2] as u32) << 16u32) | ((b[3] as u32) << 24u32)
}

/// Encode a word little-endian.
pub fn u32_to_le_bytes(v: u32) -> (b: [u8; 4])
    ensures
        b == le32(v),
{
    let b = [(v & 0xff) as u8, ((v >> 8u32) & 0xff) as u8, ((v >> 16u32) & 0xff) as u8, ((v >> 24u32) & 0xff) as u8];
    assert(b =~= le32(v));
    b
}

/// Decode a little-endian word.
pub fn u32_from_le_bytes(b: [u8; 4]) -> (v: u32)
    ensures
        v == u32_from_le(b),
{
    (b[0] as u32) | ((b[1] as u32) << 8u32) | ((b[2] as u32) << 16u32) | ((b[3] as u32) << 24u32)
}

/// Encode a signed word little-endian (two's complement).
pub fn i32_to_le_bytes(v: i32) -> (b: [u8; 4])
    ensures
        b == le32(v as u32),
{
    u32_to_le_bytes(v as u32)
}

/// Decode a little-endian signed word (two's complement).
pub fn i32_from_le_bytes(b: [u8; 4]) -> (v: i32)
    ensures
        v == u32_from_le(b) as i32,
{
    u32_from_le_bytes(b) as i32
}

/// Decoding the little-endian bytes of a word gives the word back.
pub proof fn lemma_le32_roundtrip(v: u32)
    ensures
        u32_from_le(le32(v)) == v,
{
    let b0 = (v & 0xff) as u8;
    let b1 = ((v >> 8u32) & 0xff) as u8;
    let b2 = ((v >> 16u32) & 0xff) as u8;
    let b3 = ((v >> 24u32) & 0xff) as u8;
    assert((b0 as u32) | ((b1 as u32) << 8u32) | ((b2 as u32) << 16u32) | ((b3 as u32) << 24u32) == v)
        by (bit_vector)
        requires
            b0 == (v & 0xff) as u8,
            b1 == ((v >> 8u32) & 0xff) as u8,
            b2 == ((v >> 16u32) & 0xff) as u8,
            b3 == ((v >> 24u32) & 0xff) as u8,
    ;
}

/// A signed word survives its little-endian round trip.
pub proof fn lemma_i32_le_roundtrip(v: i32)
    ensures
        u32_from_le(le32(v as u32)) as i32 == v,
{
    lemma_le32_roundtrip(v as u32);
    assert((v as u32) as i32 == v) by (bit_vector);
}

} // verus!
