use vstd::prelude::*;
use vstd::arithmetic::power::pow;
use vstd::arithmetic::power2::pow2;
use crate::hid_parser::le_value;

verus! {

/// Number of report bytes the extractor reads for a field at bit `offset` of
/// `size` bits: enough to cover the field, but never past the report's end.
pub open spec fn report_bytes_read(len: int, offset: u16, size: u16) -> int {
    let bo = (offset / 8) as int;
    let o = (offset % 8) as int;
    let needed = if size as int <= 8 - o { 1 } else { 1 + (size as int - (8 - o) + 7) / 8 };
    if needed < len - bo { needed } else { len - bo }
}

/// The extractor's inputs on which it is defined: the byte-combining shifts
/// stay below 32 bits (always so for fields of at most 32 bits).
pub open spec fn report_value_defined(len: int, offset: u16, size: u16) -> bool {
    (offset / 8) as int >= len || size == 0
        || 8 * (report_bytes_read(len, offset, size) - 1) < 32 + (offset % 8) as int
}

/// The unsigned bits of the field: little-endian bytes from the field's first
/// byte, shifted by the in-byte offset, cut to the field width (at most 32).
pub open spec fn report_field_bits(report: Seq<u8>, offset: u16, size: u16) -> nat {
    let bo = (offset / 8) as int;
    let n = report_bytes_read(report.len() as int, offset, size);
    let eff: nat = if size >= 32 { 32 } else { size as nat };
    (le_value(report.subrange(bo, bo + n)) / pow2((offset % 8) as nat)) % pow2(eff)
}

/// Value of a report field: the field bits, sign-extended from the field's top
/// bit when narrower than 32 bits (so a set 1-bit field reads as -1).
pub open spec fn report_value(report: Seq<u8>, offset: u16, size: u16) -> i32 {
    if size == 0 || (offset / 8) as int >= report.len() {
        0
    } else {
        let v = report_field_bits(report, offset, size);
        if size < 32 && v >= pow2((size - 1) as nat) {
            (v - pow2(size as nat)) as i32
        } else {
            v as i32
        }
    }
}

/// A field narrower than 32 bits reads as the two's-complement number its
/// bits make: congruent to the field bits modulo two to the field width,
/// and between minus and plus half of that (so all ones reads as -1).
pub proof fn lemma_report_value_is_signed_field(report: Seq<u8>, offset: u16, size: u16)
    requires
        0 < size < 32,
        ((offset / 8) as int) < report.len(),
    ensures
        ({
            let v = report_field_bits(report, offset, size) as int;
            let r = report_value(report, offset, size) as int;
            &&& r == v || r == v - pow2(size as nat)
            &&& -pow2((size - 1) as nat) <= r < pow2((size - 1) as nat)
        }),
{
    let v = report_field_bits(report, offset, size);
    vstd::arithmetic::power2::lemma2_to64();
    vstd::arithmetic::power2::lemma_pow2_unfold(size as nat);
    vstd::arithmetic::power2::lemma_pow2_pos(size as nat);
    vstd::arithmetic::power2::lemma_pow2_strictly_increases((size - 1) as nat, 31);
    assert(v < pow2(size as nat));
    if v >= pow2((size - 1) as nat) {
        assert((v - pow2(size as nat)) as i32 as int == v - pow2(size as nat));
    } else {
        assert(v as i32 as int == v);
    }
}

/// A byte-aligned 8-bit field reads as its byte taken as a signed byte,
/// and a byte-aligned 16-bit field with both bytes present as its two
/// bytes, least significant first, taken as a signed 16-bit number.
pub proof fn lemma_report_value_aligned(report: Seq<u8>, offset: u16)
    requires
        offset % 8 == 0,
        ((offset / 8) as int) < report.len(),
    ensures
        report_value(report, offset, 8) as int == (report[(offset / 8) as int] as i8) as int,
        (offset / 8) as int + 1 < report.len() ==> report_value(report, offset, 16) as int
            == ((report[(offset / 8) as int] as u16 + 256 * (report[(offset / 8) as int + 1] as u16)) as u16 as i16) as int,
{
    let b = (offset / 8) as int;
    let lo = report[b];
    vstd::arithmetic::power2::lemma2_to64();
    reveal_with_fuel(le_value, 3);
    let s1 = report.subrange(b, b + 1);
    assert(s1.drop_first() =~= Seq::<u8>::empty());
    assert(le_value(s1) == lo as nat);
    assert(report_bytes_read(report.len() as int, offset, 8) == 1);
    assert((offset % 8) as nat == 0);
    assert(pow2(0) == 1 && pow2(8) == 256 && pow2(16) == 65536);
    assert((lo as nat / 1) % 256 == lo as nat);
    assert(report_field_bits(report, offset, 8) == lo as nat);
    assert((lo as i8) as int == if lo >= 128 { lo - 256 } else { lo as int }) by (bit_vector);
    if b + 1 < report.len() {
        let hi = report[b + 1];
        let s2 = report.subrange(b, b + 2);
        assert(s2.drop_first() =~= seq![hi]);
        assert(s2.drop_first().drop_first() =~= Seq::<u8>::empty());
        assert(le_value(s2) == lo as nat + 256 * (hi as nat));
        assert(lo as nat + 256 * (hi as nat) < 65536);
        assert(report_bytes_read(report.len() as int, offset, 16) == 2);
        assert(((lo as nat + 256 * (hi as nat)) / 1) % 65536 == lo as nat + 256 * (hi as nat));
        assert(report_field_bits(report, offset, 16) == lo as nat + 256 * (hi as nat));
        assert(((lo as u16 + 256 * (hi as u16)) as u16 as i16) as int == if lo + 256 * hi >= 32768 {
            lo + 256 * hi - 65536
        } else {
            lo + 256 * hi
        }) by (bit_vector);
    }
}

/// Appending a byte to a little-endian string adds it at the next power of 256.
pub proof fn lemma_le_value_push(s: Seq<u8>, b: u8)
    ensures
        le_value(s.push(b)) == le_value(s) + (b as nat) * pow(256, s.len()),
    decreases s.len(),
{
    if s.len() == 0 {
        reveal_with_fuel(le_value, 2);
        assert(s.push(b).drop_first() =~= Seq::<u8>::empty());
        vstd::arithmetic::power::lemma_pow0(256);
    } else {
        lemma_le_value_push(s.drop_first(), b);
        assert(s.push(b).drop_first() =~= s.drop_first().push(b));
        vstd::arithmetic::power::lemma_pow_positive(256, (s.len() - 1) as nat);
        assert(pow(256, s.len()) == 256 * pow(256, (s.len() - 1) as nat)) by {
            reveal(pow);
        }
        assert(256 * ((b as nat) * pow(256, (s.len() - 1) as nat)) == (b as nat) * (256 * pow(256,
            (s.len() - 1) as nat))) by (nonlinear_arith);
    }
}

/// A little-endian value of `n` bytes is below 256^n.
pub proof fn lemma_le_value_bound(s: Seq<u8>)
    ensures
        le_value(s) < pow(256, s.len()),
    decreases s.len(),
{
    reveal(pow);
    if s.len() > 0 {
        lemma_le_value_bound(s.drop_first());
        let r = le_value(s.drop_first());
        let p = pow(256, (s.len() - 1) as nat);
        assert(s[0] as nat + 256 * r < 256 * p) by (nonlinear_arith)
            requires r < p, s[0] < 256;
    }
}

/// Extract a value from a HID report given bit offset and bit size.
/// Handles cross-byte boundaries and sign extension.
pub fn get_report_value(report: &[u8], offset_bits: u16, size_bits: u16) -> (r: i32)
    requires
        report_value_defined(report@.len() as int, offset_bits, size_bits),
    ensures
        r == report_value(report@, offset_bits, size_bits),
{
    if size_bits == 0 {
        return 0;
    }
    let byte_offset = (offset_bits >> 3u16) as usize;
    let o: u16 = offset_bits & 7;
    assert(offset_bits >> 3u16 == offset_bits / 8 && offset_bits & 7 == offset_bits % 8)
        by (bit_vector);
    if byte_offset >= report.len() {
        return 0;
    }
    let ghost bo = byte_offset as int;
    let ghost n = report_bytes_read(report@.len() as int, offset_bits, size_bits);
    let mut acc: u64 = report[byte_offset] as u64;
    let mut mult: u64 = 256;
    let mut remaining: u16 = 8 - o;
    let mut idx: usize = byte_offset;
    proof {
        reveal_with_fuel(le_value, 2);
        assert(report@.subrange(bo, bo + 1).drop_first() =~= Seq::<u8>::empty());
        reveal_with_fuel(pow, 2);
    }
    while size_bits > remaining && idx < report.len() - 1
        invariant
            byte_offset <= idx < report.len(),
            bo == byte_offset as int,
            o == offset_bits % 8,
            byte_offset == offset_bits / 8,
            size_bits > 0,
            n == report_bytes_read(report@.len() as int, offset_bits, size_bits),
            report_value_defined(report@.len() as int, offset_bits, size_bits),
            idx - bo + 1 <= n,
            remaining == 8 - o + 8 * (idx - bo),
            mult == pow(256, (idx - bo + 1) as nat),
            acc == le_value(report@.subrange(bo, idx as int + 1)),
            acc < pow(256, (idx - bo + 1) as nat),
        decreases report.len() - idx,
    {
        let ghost prev = report@.subrange(bo, idx as int + 1);
        idx = idx + 1;
        assert(report@.subrange(bo, idx as int + 1) =~= prev.push(report@[idx as int]));
        proof {
            lemma_le_value_push(prev, report@[idx as int]);
            reveal(pow);
            assert(pow(256, (idx - bo + 1) as nat) == 256 * pow(256, (idx - bo) as nat));
            let m = pow(256, (idx - bo) as nat);
            assert(m <= pow(256, 4)) by {
                vstd::arithmetic::power::lemma_pow_increases(256, (idx - bo) as nat, 4);
            }
            assert(pow(256, 4) == 0x1_0000_0000) by { reveal_with_fuel(pow, 5); }
            assert(acc + (report@[idx as int] as nat) * m < 256 * m) by (nonlinear_arith)
                requires acc < m, report@[idx as int] < 256;
        }
        acc = acc + (report[idx] as u64) * mult;
        mult = mult * 256;
        remaining = remaining + 8;
    }
    assert(idx - bo + 1 == n);
    let ghost field = report@.subrange(bo, bo + n);
    assert(field =~= report@.subrange(bo, idx as int + 1));
    proof {
        vstd::bits::lemma_u64_shr_is_div(acc, o as u64);
    }
    let shifted: u64 = acc >> (o as u64);
    let eff: u16 = if size_bits >= 32 { 32 } else { size_bits };
    proof {
        vstd::bits::lemma_u64_pow2_no_overflow(eff as nat);
        vstd::bits::lemma_u64_shl_is_mul(1, eff as u64);
    }
    let modulus: u64 = 1u64 << (eff as u64);
    let v: u64 = shifted % modulus;
    assert(v as nat == report_field_bits(report@, offset_bits, size_bits));
    if size_bits < 32 {
        proof {
            vstd::bits::lemma_u64_pow2_no_overflow((size_bits - 1) as nat);
            vstd::bits::lemma_u64_shl_is_mul(1, (size_bits - 1) as u64);
        }
        let half: u64 = 1u64 << ((size_bits - 1) as u64);
        proof {
            vstd::arithmetic::power2::lemma2_to64();
            if size_bits < 31 {
                vstd::arithmetic::power2::lemma_pow2_strictly_increases(size_bits as nat, 31);
            }
            assert(modulus <= 0x8000_0000);
        }
        if v >= half {
            return (v as i64 - modulus as i64) as i32;
        }
    }
    v as i32
}

/// Whether bit `j` of a report (counting from bit 0 of byte 0) is set.
pub open spec fn report_bit_set(report: Seq<u8>, j: int) -> bool {
    0 <= j && j / 8 < report.len() && (report[j / 8] >> ((j % 8) as u8)) & 1 == 1
}

/// Usages found among the first `k` bits of a bit-variable field starting at
/// bit `start`, where bit `start + i` stands for usage `umin + i`.
pub open spec fn found_usages(report: Seq<u8>, umin: int, start: int, k: nat) -> Seq<u8>
    decreases k,
{
    if k == 0 {
        Seq::empty()
    } else {
        let prev = found_usages(report, umin, start, (k - 1) as nat);
        if report_bit_set(report, start + k - 1) {
            prev.push((umin + k - 1) as u8)
        } else {
            prev
        }
    }
}

/// Scanning more bits only extends the list of found usages.
pub proof fn lemma_found_usages_prefix(report: Seq<u8>, umin: int, start: int, k1: nat, k2: nat)
    requires
        k1 <= k2,
    ensures
        found_usages(report, umin, start, k1).len() <= found_usages(report, umin, start, k2).len(),
        found_usages(report, umin, start, k1) =~= found_usages(report, umin, start, k2).take(
            found_usages(report, umin, start, k1).len() as int,
        ),
    decreases k2,
{
    if k1 < k2 {
        lemma_found_usages_prefix(report, umin, start, k1, (k2 - 1) as nat);
    }
}

/// Number of usages in `[usage_min, usage_max]`.
pub open spec fn usage_span(usage_min: i32, usage_max: i32) -> nat {
    if usage_max < usage_min { 0 } else { (usage_max - usage_min + 1) as nat }
}

/// Extract key codes from a bit-variable NKRO report.
/// Returns the number of keys found.
pub fn extract_bit_variable(
    raw_report: &[u8],
    usage_min: i32,
    usage_max: i32,
    bit_offset: u16,
    dst: &mut [u8],
) -> (key_count: usize)
    ensures
        ({
            let all = found_usages(raw_report@, usage_min as int, (bit_offset % 8) as int,
                usage_span(usage_min, usage_max));
            &&& key_count == (if all.len() < old(dst)@.len() { all.len() } else { old(dst)@.len() })
            &&& final(dst)@.len() == old(dst)@.len()
            &&& final(dst)@.take(key_count as int) =~= all.take(key_count as int)
            &&& final(dst)@.skip(key_count as int) =~= old(dst)@.skip(key_count as int)
        }),
{
    let mut key_count: usize = 0;
    let start_bit: u64 = (bit_offset & 0b111) as u64;
    assert(bit_offset & 0b111 == bit_offset % 8) by (bit_vector);
    let ghost start = start_bit as int;
    let ghost total = usage_span(usage_min, usage_max);
    let mut j: u64 = start_bit;
    let mut i: i64 = usage_min as i64;
    let ghost k: nat = 0;
    while i <= usage_max as i64
        invariant_except_break
            usage_min as i64 <= i,
            i <= usage_max as i64 + 1 || total == 0,
        invariant
            k == i - usage_min,
            k <= total,
            total == usage_span(usage_min, usage_max),
            j == start + k,
            start == (bit_offset % 8) as int,
            key_count <= dst@.len(),
            dst@.len() == old(dst)@.len(),
            key_count == found_usages(raw_report@, usage_min as int, start, k).len(),
            dst@.take(key_count as int) =~= found_usages(raw_report@, usage_min as int, start, k),
            dst@.skip(key_count as int) =~= old(dst)@.skip(key_count as int),
        ensures
            key_count == found_usages(raw_report@, usage_min as int, start, k).len(),
            k == total || key_count == dst@.len(),
        decreases usage_max as i64 + 1 - i,
    {
        if key_count >= dst.len() {
            break;
        }
        let byte_index: u64 = j >> 3u64;
        let bit_index: u64 = j & 0b111;
        assert(j >> 3u64 == j / 8 && j & 0b111 == j % 8) by (bit_vector);
        let ghost before = dst@;
        let ghost kc0 = key_count as int;
        assert(forall|t: int| kc0 <= t < before.len() ==> before[t] == old(dst)@[t]) by {
            assert forall|t: int| kc0 <= t < before.len() implies before[t] == old(dst)@[t] by {
                assert(before.skip(kc0)[t - kc0] == old(dst)@.skip(kc0)[t - kc0]);
            }
        }
        if byte_index < raw_report.len() as u64 {
            let b = raw_report[byte_index as usize];
            let bi = bit_index as u8;
            assert(bi < 8 ==> ((b & (1u8 << bi) != 0) == ((b >> bi) & 1 == 1))) by (bit_vector);
            if (b & (1u8 << bi)) != 0 {
                dst[key_count] = i as u8;
                key_count = key_count + 1;
            }
        }
        proof {
            k = k + 1;
        }
        assert(dst@.take(key_count as int) =~= found_usages(raw_report@, usage_min as int, start, k));
        assert(dst@.skip(key_count as int) =~= old(dst)@.skip(key_count as int));
        j = j + 1;
        i = i + 1;
    }
    proof {
        lemma_found_usages_prefix(raw_report@, usage_min as int, start, k, total);
    }
    key_count
}

} // verus!
