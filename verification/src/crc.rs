use vstd::prelude::*;

verus! {

/// Reflected CRC-32 polynomial (IEEE 802.3).
pub const CRC32_POLY: u32 = 0xEDB8_8320;

/// XOR of all bytes: the checksum carried by each inter-board packet.
pub open spec fn xor_fold(s: Seq<u8>) -> u8
    decreases s.len(),
{
    if s.len() == 0 {
        0
    } else {
        xor_fold(s.drop_last()) ^ s.last()
    }
}

/// One bit step of the reflected CRC-32 register.
pub open spec fn crc32_bit(c: u32) -> u32 {
    if c & 1 == 1 {
        (c >> 1u32) ^ CRC32_POLY
    } else {
        c >> 1u32
    }
}

/// `n` bit steps of the CRC-32 register.
pub open spec fn crc32_bits(c: u32, n: nat) -> u32
    decreases n,
{
    if n == 0 {
        c
    } else {
        crc32_bit(crc32_bits(c, (n - 1) as nat))
    }
}

/// Running (non-inverted) CRC-32 after folding in one byte.
pub open spec fn crc32_step(crc: u32, byte: u8) -> u32 {
    crc32_bits(crc ^ (byte as u32), 8)
}

/// Running CRC-32 after folding in every byte of `s`, starting from `init`.
pub open spec fn crc32_fold(init: u32, s: Seq<u8>) -> u32
    decreases s.len(),
{
    if s.len() == 0 {
        init
    } else {
        crc32_step(crc32_fold(init, s.drop_last()), s.last())
    }
}

/// Standard CRC-32 of a byte string: seed all-ones, fold, invert.
pub open spec fn crc32_spec(s: Seq<u8>) -> u32 {
    !crc32_fold(0xFFFF_FFFF, s)
}

/// XOR checksum of a byte string.
pub fn calc_checksum(data: &[u8]) -> (r: u8)
    ensures
        r == xor_fold(data@),
{
    let mut c: u8 = 0;
    let mut i: usize = 0;
    while i < data.len()
        invariant
            i <= data.len(),
            c == xor_fold(data@.take(i as int)),
        decreases data.len() - i,
    {
        assert(data@.take(i as int + 1).drop_last() =~= data@.take(i as int));
        c = c ^ data[i];
        i = i + 1;
    }
    assert(data@.take(i as int) =~= data@);
    c
}

/// Fold one byte into a running CRC-32.
pub fn crc32_iter(crc: u32, byte: u8) -> (r: u32)
    ensures
        r == crc32_step(crc, byte),
{
    let mut c: u32 = crc ^ (byte as u32);
    let mut k: u32 = 0;
    while k < 8
        invariant
            k <= 8,
            c == crc32_bits(crc ^ (byte as u32), k as nat),
        decreases 8 - k,
    {
        if c & 1 == 1 {
            c = (c >> 1u32) ^ CRC32_POLY;
        } else {
            c = c >> 1u32;
        }
        k = k + 1;
    }
    c
}

/// Standard CRC-32 of a byte string.
pub fn calc_crc32(data: &[u8]) -> (r: u32)
    ensures
        r == crc32_spec(data@),
{
    let mut c: u32 = 0xFFFF_FFFF;
    let mut i: usize = 0;
    while i < data.len()
        invariant
            i <= data.len(),
            c == crc32_fold(0xFFFF_FFFF, data@.take(i as int)),
        decreases data.len() - i,
    {
        assert(data@.take(i as int + 1).drop_last() =~= data@.take(i as int));
        c = crc32_iter(c, data[i]);
        i = i + 1;
    }
    assert(data@.take(i as int) =~= data@);
    !c
}

/// Folding two byte strings one after the other is folding their concatenation.
pub proof fn lemma_crc32_fold_append(init: u32, a: Seq<u8>, b: Seq<u8>)
    ensures
        crc32_fold(crc32_fold(init, a), b) == crc32_fold(init, a + b),
    decreases b.len(),
{
    if b.len() == 0 {
        assert(a + b =~= a);
    } else {
        lemma_crc32_fold_append(init, a, b.drop_last());
        assert((a + b).drop_last() =~= a + b.drop_last());
    }
}

/// A packet's checksum covers its bytes in order: appending a byte XORs it in.
pub proof fn lemma_xor_fold_push(s: Seq<u8>, b: u8)
    ensures
        xor_fold(s.push(b)) == xor_fold(s) ^ b,
{
    assert(s.push(b).drop_last() =~= s);
}

} // verus!
