//! Firmware transfer between the boards: the receiver's per-tick page and
//! sector decisions, the USB mass-storage block decisions, and the word-level
//! receive and send steps.
use vstd::prelude::*;
use crate::crc::{crc32_fold, crc32_iter};
use crate::hal::{ConfigStore, Hal, HalView, Indicator};
use crate::structs::Device;

verus! {

/// Size of the staged firmware image.
pub const STAGING_IMAGE_SIZE: u32 = 262144;
/// Flash erase unit.
pub const FLASH_SECTOR_SIZE: u32 = 4096;
/// Flash program unit.
pub const FLASH_PAGE_SIZE: u32 = 256;

/// First start word of a UF2 block.
pub const UF2_MAGIC_START0: u32 = 0x0A32_4655;
/// Second start word of a UF2 block.
pub const UF2_MAGIC_START1: u32 = 0x9E5D_5157;
/// End word of a UF2 block.
pub const UF2_MAGIC_END: u32 = 0x0AB1_6F30;

/// One receiver tick's decision.
#[derive(Clone, Copy, Debug, PartialEq, Eq, Structural)]
pub struct FwStep {
    /// 1 when the just-completed page at `page_offset` must be written.
    pub write_page: u8,
    /// 1 when the sector must be erased before the page is written.
    pub erase_sector: u8,
    /// 1 when every byte has arrived: verify and promote the image.
    pub finalize: u8,
    pub _pad: u8,
    /// Image offset of the page to write.
    pub page_offset: u32,
    /// Address to request next when not finalizing.
    pub request_address: u32,
}

/// Whether `address` closes a page: a non-zero multiple of the page size.
pub open spec fn closes_page(address: u32) -> bool {
    address != 0 && address % 256 == 0
}

/// The receiver's decision for the current expected address.
pub open spec fn next_step_spec(address: u32) -> FwStep {
    let write = closes_page(address);
    let offset: u32 = if write { (address - 256) as u32 } else { 0 };
    FwStep {
        write_page: if write { 1 } else { 0 },
        erase_sector: if write && offset % 4096 == 0 { 1 } else { 0 },
        finalize: if address >= STAGING_IMAGE_SIZE { 1 } else { 0 },
        _pad: 0,
        page_offset: offset,
        request_address: if address >= STAGING_IMAGE_SIZE { 0 } else { address },
    }
}

/// Decide what the receiver does for the current expected address: write
/// the page that just completed (never at address 0), erase its sector when
/// it opens one, and finalize once the address reaches the image size.
pub fn next_step(address: u32) -> (s: FwStep)
    ensures
        s == next_step_spec(address),
{
    let mut s = FwStep { write_page: 0, erase_sector: 0, finalize: 0, _pad: 0, page_offset: 0, request_address: 0 };
    if address != 0 && address % FLASH_PAGE_SIZE == 0 {
        let last: u32 = address - 1;
        let offset = last & !(FLASH_PAGE_SIZE - 1);
        assert(offset == last - 255) by (bit_vector)
            requires
                offset == last & !255u32,
                last % 256 == 255,
        ;
        s.write_page = 1;
        s.page_offset = offset;
        s.erase_sector = if offset % FLASH_SECTOR_SIZE == 0 { 1 } else { 0 };
    }
    if address >= STAGING_IMAGE_SIZE {
        s.finalize = 1;
    } else {
        s.request_address = address;
    }
    s
}

/// One USB mass-storage UF2 block's write decision.
#[derive(Clone, Copy, Debug, PartialEq, Eq, Structural)]
pub struct MscStep {
    /// 1 when the block carries the UF2 magic words.
    pub is_uf2: u8,
    /// 1 for block 0: the running checksum starts over.
    pub is_first: u8,
    /// 1 when the payload lies in the checksummed region.
    pub accumulate_crc: u8,
    /// 1 for the last block of the image.
    pub is_final: u8,
    /// Image offset of this block's page.
    pub flash_offset: u32,
}

/// Whether the three magic words are those of a UF2 block.
pub open spec fn is_uf2_block(magic0: u32, magic1: u32, magic_end: u32) -> bool {
    magic0 == UF2_MAGIC_START0 && magic1 == UF2_MAGIC_START1 && magic_end == UF2_MAGIC_END
}

/// The write decision for one UF2 block.
pub open spec fn msc_write_step_spec(block_no: u32, magic0: u32, magic1: u32, magic_end: u32) -> MscStep {
    if !is_uf2_block(magic0, magic1, magic_end) {
        MscStep { is_uf2: 0, is_first: 0, accumulate_crc: 0, is_final: 0, flash_offset: 0 }
    } else {
        MscStep {
            is_uf2: 1,
            is_first: if block_no == 0 { 1 } else { 0 },
            accumulate_crc: if block_no < 1008 { 1 } else { 0 },
            is_final: if block_no == 1023 { 1 } else { 0 },
            flash_offset: ((block_no as int * 256) % 0x1_0000_0000) as u32,
        }
    }
}

/// Decide how one UF2 block written over USB mass storage is handled. The
/// checksum covers every page but those of the final sector.
pub fn msc_write_step(block_no: u32, magic0: u32, magic1: u32, magic_end: u32) -> (s: MscStep)
    ensures
        s == msc_write_step_spec(block_no, magic0, magic1, magic_end),
{
    let mut s = MscStep { is_uf2: 0, is_first: 0, accumulate_crc: 0, is_final: 0, flash_offset: 0 };
    if magic0 != UF2_MAGIC_START0 || magic1 != UF2_MAGIC_START1 || magic_end != UF2_MAGIC_END {
        return s;
    }
    s.is_uf2 = 1;
    s.is_first = if block_no == 0 { 1 } else { 0 };
    let last_block_with_checksum = (STAGING_IMAGE_SIZE - FLASH_SECTOR_SIZE) / FLASH_PAGE_SIZE;
    s.accumulate_crc = if block_no < last_block_with_checksum { 1 } else { 0 };
    s.is_final = if block_no == STAGING_IMAGE_SIZE / FLASH_PAGE_SIZE - 1 { 1 } else { 0 };
    s.flash_offset = block_no.wrapping_mul(FLASH_PAGE_SIZE);
    s
}

/// The page buffer after a word is placed at byte `offset`, when it fits.
pub open spec fn place_word(buf: [u8; 256], offset: int, word: [u8; 4]) -> Seq<u8> {
    Seq::new(256, |j: int| if offset <= j < offset + 4 && offset + 4 <= 256 { word[j - offset] } else { buf[j] })
}

/// What receiving the word `fw_data` for `address` does, from board state
/// `s0` and boundary `h0` to `s1` and `h1`: a word out of sequence aborts
/// the transfer; otherwise the indicator toggles on each 4 KiB boundary,
/// the word is folded into the running checksum (except in the final
/// sector, which holds the checksum itself), placed in the page buffer, and
/// the expected address moves on by four.
pub open spec fn received_word(s0: Device, h0: HalView, address: u32, fw_data: [u8; 4], s1: Device, h1: HalView) -> bool {
    let ok = address == s0.fw.fw.address;
    &&& s1.hid == s0.hid
    &&& s1.cfg == s0.cfg
    &&& s1.led == s0.led
    &&& s1.fw.running_fw == s0.fw.running_fw
    &&& s1.fw.reboot_requested == s0.fw.reboot_requested
    &&& s1.fw.fw.version == s0.fw.fw.version
    &&& s1.fw.fw.checksum == (if ok && address < STAGING_IMAGE_SIZE - FLASH_SECTOR_SIZE {
        crc32_fold(s0.fw.fw.checksum, fw_data@)
    } else {
        s0.fw.fw.checksum
    })
    &&& !ok ==> {
        &&& !s1.fw.fw.upgrade_in_progress
        &&& s1.fw.fw.address == 0
        &&& s1.fw.fw.byte_done == s0.fw.fw.byte_done
        &&& s1.fw.page_buffer == s0.fw.page_buffer
        &&& h1 == h0
    }
    &&& ok ==> {
        &&& s1.fw.fw.upgrade_in_progress == s0.fw.fw.upgrade_in_progress
        &&& s1.fw.fw.address == address + 4
        &&& s1.fw.fw.byte_done
        &&& s1.fw.page_buffer@ == place_word(s0.fw.page_buffer, (address % 256) as int, fw_data)
        &&& h1 == (if address % 4096 == 0 { h0.toggle() } else { h0 })
    }
}

/// Receive one firmware word during an upgrade.
pub fn receive_fw_byte(state: &mut Device, hal: &mut Hal, address: u32, fw_data: &[u8; 4]) -> (ok: bool)
    requires
        address == old(state).fw.fw.address ==> address <= u32::MAX - 4,
    ensures
        ok == (address == old(state).fw.fw.address),
        received_word(*old(state), old(hal)@, address, *fw_data, *final(state), final(hal)@),
{
    if address != state.fw.fw.address {
        state.fw.fw.upgrade_in_progress = false;
        state.fw.fw.address = 0;
        return false;
    }
    if (address & 0xfff) == 0x000 {
        assert((address & 0xfff) == 0 <==> address % 4096 == 0) by (bit_vector);
        hal.toggle();
    } else {
        assert((address & 0xfff) == 0 <==> address % 4096 == 0) by (bit_vector);
    }
    if address < STAGING_IMAGE_SIZE - FLASH_SECTOR_SIZE {
        let ghost init = state.fw.fw.checksum;
        let mut i: usize = 0;
        while i < 4
            invariant
                i <= 4,
                state.fw.fw.checksum == crc32_fold(init, fw_data@.take(i as int)),
                state.hid == old(state).hid,
                state.cfg == old(state).cfg,
                state.led == old(state).led,
                state.fw.running_fw == old(state).fw.running_fw,
                state.fw.reboot_requested == old(state).fw.reboot_requested,
                state.fw.page_buffer == old(state).fw.page_buffer,
                state.fw.fw.version == old(state).fw.fw.version,
                state.fw.fw.address == old(state).fw.fw.address,
                state.fw.fw.byte_done == old(state).fw.fw.byte_done,
                state.fw.fw.upgrade_in_progress == old(state).fw.fw.upgrade_in_progress,
            decreases 4 - i,
        {
            assert(fw_data@.take(i as int + 1).drop_last() =~= fw_data@.take(i as int));
            state.fw.fw.checksum = crc32_iter(state.fw.fw.checksum, fw_data[i]);
            i = i + 1;
        }
        assert(fw_data@.take(4) =~= fw_data@);
    }
    let offset = (address & 0xFF) as usize;
    assert((address & 0xFF) == address % 256) by (bit_vector);
    let ghost before = state.fw.page_buffer;
    if offset + 4 <= 256 {
        state.fw.page_buffer[offset] = fw_data[0];
        state.fw.page_buffer[offset + 1] = fw_data[1];
        state.fw.page_buffer[offset + 2] = fw_data[2];
        state.fw.page_buffer[offset + 3] = fw_data[3];
    }
    assert(state.fw.page_buffer@ =~= place_word(before, (address % 256) as int, *fw_data));
    state.fw.fw.address = state.fw.fw.address + 4;
    state.fw.fw.byte_done = true;
    true
}

/// Little-endian bytes of a word.
pub open spec fn le_bytes(w: u32) -> [u8; 4] {
    [(w % 256) as u8, ((w / 256) % 256) as u8, ((w / 65536) % 256) as u8, (w / 16777216) as u8]
}

/// The reply to a request for the firmware word at `address`: the address
/// echoed little-endian, then the word little-endian.
pub open spec fn fw_response(address: u32, word: u32) -> [u8; 8] {
    let a = le_bytes(address);
    let w = le_bytes(word);
    [a[0], a[1], a[2], a[3], w[0], w[1], w[2], w[3]]
}

fn le_bytes_exec(w: u32) -> (b: [u8; 4])
    ensures
        b == le_bytes(w),
{
    let b = [(w & 0xFF) as u8, ((w >> 8) & 0xFF) as u8, ((w >> 16) & 0xFF) as u8, ((w >> 24) & 0xFF) as u8];
    assert((w & 0xFF) == w % 256) by (bit_vector);
    assert(((w >> 8) & 0xFF) == (w / 256) % 256) by (bit_vector);
    assert(((w >> 16) & 0xFF) == (w / 65536) % 256) by (bit_vector);
    assert(((w >> 24) & 0xFF) == w / 16777216) by (bit_vector);
    b
}

/// Serve one firmware word to the peer. Past the end of the image there is
/// nothing to send: the peer takes that as the end of the transfer.
pub fn send_fw_byte(state: &Device, hal: &Hal, address: u32) -> (r: Option<[u8; 8]>)
    ensures
        address >= STAGING_IMAGE_SIZE ==> r is None,
        address < STAGING_IMAGE_SIZE ==> r == Some(fw_response(address, hal@.running_word(address))),
{
    if address >= STAGING_IMAGE_SIZE {
        return None;
    }
    let fw_data = hal.read_running_fw(address);
    let a = le_bytes_exec(address);
    let w = le_bytes_exec(fw_data);
    let response = [a[0], a[1], a[2], a[3], w[0], w[1], w[2], w[3]];
    assert(response =~= fw_response(address, fw_data));
    Some(response)
}

/// Decoding the echoed address of a reply gives the requested address back.
pub proof fn lemma_response_address_roundtrip(address: u32, word: u32)
    ensures
        ({
            let r = fw_response(address, word);
            r[0] as int + r[1] as int * 256 + r[2] as int * 65536 + r[3] as int * 16777216 == address
        }),
{
    let a = address as int;
    assert(a == a % 256 + ((a / 256) % 256) * 256 + ((a / 65536) % 256) * 65536 + (a / 16777216) * 16777216)
        by (nonlinear_arith)
        requires 0 <= a < 0x1_0000_0000;
}

/// Words received in sequence fold into the checksum exactly as the flat
/// byte string they form: receiving `a` then `b` equals receiving `a + b`.
pub proof fn lemma_receive_crc_is_flat(seed: u32, a: Seq<u8>, b: Seq<u8>)
    ensures
        crc32_fold(crc32_fold(seed, a), b) == crc32_fold(seed, a + b),
{
    crate::crc::lemma_crc32_fold_append(seed, a, b);
}

/// Over a full sweep the receiver writes a page at each multiple of the
/// page size up to and including the image size, except at zero, and
/// finalizes exactly at the image size.
pub proof fn lemma_step_sweep(address: u32)
    requires
        address <= STAGING_IMAGE_SIZE,
        address % 4 == 0,
    ensures
        (next_step_spec(address).write_page == 1) <==> (address != 0 && address % 256 == 0),
        (next_step_spec(address).finalize == 1) <==> address == STAGING_IMAGE_SIZE,
        address < STAGING_IMAGE_SIZE ==> next_step_spec(address).request_address == address,
        next_step_spec(address).write_page == 1 ==> next_step_spec(address).page_offset + 256 == address,
{
}

/// The bytes of words, one word after the other.
pub open spec fn word_bytes(words: Seq<[u8; 4]>) -> Seq<u8>
    decreases words.len(),
{
    if words.len() == 0 {
        Seq::empty()
    } else {
        word_bytes(words.drop_last()) + words.last()@
    }
}

/// Words received one after the other from the expected address, all
/// before the final sector, leave the expected address past the last of
/// them and, in the running checksum, the checksum folded over all their
/// bytes in order: a transfer seeded with `0xFFFF_FFFF` ends with the
/// complement of the flat CRC-32 of the bytes received. Words that stay
/// within one page lie in the page buffer one after the other, from the
/// first word's offset on.
pub proof fn lemma_words_fold_into_checksum(states: Seq<Device>, hals: Seq<HalView>, start: u32, words: Seq<[u8; 4]>)
    requires
        states.len() == words.len() + 1,
        hals.len() == words.len() + 1,
        states[0].fw.fw.address == start,
        start + 4 * words.len() <= STAGING_IMAGE_SIZE - FLASH_SECTOR_SIZE,
        forall|i: int| 0 <= i < words.len() ==> received_word(
            #[trigger] states[i], hals[i], (start + 4 * i) as u32, words[i], states[i + 1], hals[i + 1]),
    ensures
        states.last().fw.fw.address == start + 4 * words.len(),
        states.last().fw.fw.checksum == crc32_fold(states[0].fw.fw.checksum, word_bytes(words)),
        states[0].fw.fw.checksum == 0xFFFF_FFFF ==> !states.last().fw.fw.checksum == crate::crc::crc32_spec(word_bytes(words)),
        start % 256 + 4 * words.len() <= 256 ==> states.last().fw.page_buffer@.subrange(
            (start % 256) as int, start % 256 + 4 * words.len()) == word_bytes(words),
    decreases words.len(),
{
    if words.len() > 0 {
        let n = words.len() - 1;
        lemma_words_fold_into_checksum(states.drop_last(), hals.drop_last(), start, words.drop_last());
        assert(states.drop_last().last() == states[n]);
        assert(received_word(states[n], hals[n], (start + 4 * n) as u32, words[n], states[n + 1], hals[n + 1]));
        crate::crc::lemma_crc32_fold_append(states[0].fw.fw.checksum, word_bytes(words.drop_last()), words[n]@);
        if start % 256 + 4 * words.len() <= 256 {
            let o = start % 256;
            let a = start + 4 * n;
            assert(a % 256 == o + 4 * n) by (nonlinear_arith)
                requires
                    o == start % 256,
                    a == start + 4 * n,
                    o + 4 * n + 4 <= 256,
                    n >= 0,
                    start >= 0;
            let before = states[n].fw.page_buffer@;
            let after = states[n + 1].fw.page_buffer@;
            assert(after == place_word(states[n].fw.page_buffer, o + 4 * n, words[n]));
            assert(before.subrange(o as int, o + 4 * n) == word_bytes(words.drop_last()));
            assert(after.subrange(o as int, o + 4 * words.len()) =~= before.subrange(o as int, o + 4 * n) + words[n]@);
        }
    }
}

} // verus!
