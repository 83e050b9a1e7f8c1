use lib::constants::PacketType;
use lib::crc;
use lib::msg_handlers::{apply_action, handle_simple_msg, HandlerAction};
use lib::hal::Hal;
use lib::service::fw_upgrade::{
    msc_write_step, next_step, receive_fw_byte, send_fw_byte, FLASH_PAGE_SIZE, FLASH_SECTOR_SIZE,
    STAGING_IMAGE_SIZE, UF2_MAGIC_END, UF2_MAGIC_START0, UF2_MAGIC_START1,
};
use lib::structs::Device;

#[test]
fn receive_first_byte_ok() {
    let mut hal = Hal::new();
    let mut state = Device::zeroed_for_test();
    state.fw.fw.address = 0;
    state.fw.fw.upgrade_in_progress = true;

    assert!(receive_fw_byte(&mut state, &mut hal, 0, &[0xAA, 0xBB, 0xCC, 0xDD]));
    assert_eq!(state.fw.fw.address, 4);
    assert!(state.fw.fw.byte_done);
    assert_eq!(hal.toggle_count, 1);
}

#[test]
fn receive_address_mismatch_aborts() {
    let mut hal = Hal::new();
    let mut state = Device::zeroed_for_test();
    state.fw.fw.address = 100;
    state.fw.fw.upgrade_in_progress = true;

    assert!(!receive_fw_byte(&mut state, &mut hal, 200, &[0; 4]));
    assert!(!state.fw.fw.upgrade_in_progress);
    assert_eq!(state.fw.fw.address, 0);
}

#[test]
fn receive_accumulates_crc() {
    let mut hal = Hal::new();
    let mut state = Device::zeroed_for_test();
    state.fw.fw.address = 4;
    state.fw.fw.checksum = 0xFFFFFFFF;

    receive_fw_byte(&mut state, &mut hal, 4, &[0x01, 0x02, 0x03, 0x04]);

    assert_ne!(state.fw.fw.checksum, 0xFFFFFFFF);
}

#[test]
fn receive_skips_crc_for_last_sector() {
    let mut hal = Hal::new();
    let mut state = Device::zeroed_for_test();
    let addr = STAGING_IMAGE_SIZE - FLASH_SECTOR_SIZE;
    state.fw.fw.address = addr;
    let initial_crc = state.fw.fw.checksum;

    receive_fw_byte(&mut state, &mut hal, addr, &[0xFF; 4]);

    assert_eq!(state.fw.fw.checksum, initial_crc);
}

#[test]
fn receive_toggles_at_4k_boundary() {
    let mut hal = Hal::new();
    let mut state = Device::zeroed_for_test();
    state.fw.fw.address = 0x1000;

    receive_fw_byte(&mut state, &mut hal, 0x1000, &[0; 4]);

    assert_eq!(hal.toggle_count, 1);
}

#[test]
fn receive_no_toggle_mid_sector() {
    let mut hal = Hal::new();
    let mut state = Device::zeroed_for_test();
    state.fw.fw.address = 0x1004;

    receive_fw_byte(&mut state, &mut hal, 0x1004, &[0; 4]);

    assert_eq!(hal.toggle_count, 0);
}

#[test]
fn send_fw_byte_valid_address() {
    let hal = Hal::new();
    let state = Device::zeroed_for_test();
    let result = send_fw_byte(&state, &hal, 0x100);
    assert!(result.is_some());
}

#[test]
fn send_fw_byte_out_of_range() {
    let hal = Hal::new();
    let state = Device::zeroed_for_test();
    let result = send_fw_byte(&state, &hal, STAGING_IMAGE_SIZE);
    assert!(result.is_none());
}

#[test]
fn send_fw_byte_last_valid_word_is_some() {
    let hal = Hal::new();
    let state = Device::zeroed_for_test();
    assert!(send_fw_byte(&state, &hal, STAGING_IMAGE_SIZE - 4).is_some());
    assert!(send_fw_byte(&state, &hal, STAGING_IMAGE_SIZE + 4).is_none());
}

#[test]
fn step_terminal_uses_ge_not_gt() {
    assert_eq!(next_step(STAGING_IMAGE_SIZE).finalize, 1);
    assert_eq!(next_step(STAGING_IMAGE_SIZE - 4).finalize, 0);
    assert_eq!(next_step(STAGING_IMAGE_SIZE).request_address, 0);
}

#[test]
fn step_address_zero_writes_no_page() {
    assert_eq!(next_step(0).write_page, 0);
    assert_eq!(next_step(0).finalize, 0);
    assert_eq!(next_step(0).request_address, 0);
}

#[test]
fn step_page_write_address_is_completed_page() {
    let s = next_step(0x100);
    assert_eq!(s.write_page, 1);
    assert_eq!(s.page_offset, 0x000);
    let s = next_step(0x200);
    assert_eq!(s.page_offset, 0x100);
    let s = next_step(STAGING_IMAGE_SIZE);
    assert_eq!(s.write_page, 1);
    assert_eq!(s.page_offset, STAGING_IMAGE_SIZE - FLASH_PAGE_SIZE);
    assert_eq!(s.finalize, 1);
}

#[test]
fn step_non_boundary_just_requests() {
    let s = next_step(0x104);
    assert_eq!(s.write_page, 0);
    assert_eq!(s.finalize, 0);
    assert_eq!(s.request_address, 0x104);
}

#[test]
fn step_sector_erase_only_on_first_page_of_sector() {
    assert_eq!(next_step(0x100).erase_sector, 1);
    assert_eq!(next_step(0x200).erase_sector, 0);
    assert_eq!(next_step(0x1000).erase_sector, 0);
    assert_eq!(next_step(0x1100).erase_sector, 1);
    let erases = (1..=STAGING_IMAGE_SIZE / 4)
        .map(|w| w * 4)
        .filter(|&a| next_step(a).erase_sector == 1)
        .count() as u32;
    assert_eq!(erases, STAGING_IMAGE_SIZE / FLASH_SECTOR_SIZE);
}

#[test]
fn step_full_image_invariants() {
    let writes = (0..=STAGING_IMAGE_SIZE)
        .step_by(4)
        .filter(|&a| next_step(a).write_page == 1)
        .count();
    assert_eq!(writes, (STAGING_IMAGE_SIZE / FLASH_PAGE_SIZE) as usize);
    assert_eq!(next_step(0).write_page, 0);
    for a in (0..STAGING_IMAGE_SIZE).step_by(4) {
        assert_eq!(next_step(a).finalize, 0);
        assert_eq!(next_step(a).request_address, a);
    }
    assert_eq!(next_step(STAGING_IMAGE_SIZE).finalize, 1);
    assert_eq!(next_step(STAGING_IMAGE_SIZE).request_address, 0);
}

const M0: u32 = UF2_MAGIC_START0;
const M1: u32 = UF2_MAGIC_START1;
const ME: u32 = UF2_MAGIC_END;

#[test]
fn msc_rejects_non_uf2_block() {
    let s = msc_write_step(0, 0, 0, 0);
    assert_eq!(s.is_uf2, 0);
    assert_eq!(s.is_first, 0);
    assert_eq!(s.is_final, 0);
    assert_eq!(s.accumulate_crc, 0);
    assert_eq!(msc_write_step(0, M0, M1, ME ^ 1).is_uf2, 0);
    assert_eq!(msc_write_step(0, M0 ^ 1, M1, ME).is_uf2, 0);
}

#[test]
fn msc_first_block_inits_and_writes_offset_zero() {
    let s = msc_write_step(0, M0, M1, ME);
    assert_eq!(s.is_uf2, 1);
    assert_eq!(s.is_first, 1);
    assert_eq!(s.flash_offset, 0);
    assert_eq!(s.accumulate_crc, 1);
    assert_eq!(s.is_final, 0);
}

#[test]
fn msc_flash_offset_is_block_times_page() {
    let s = msc_write_step(5, M0, M1, ME);
    assert_eq!(s.flash_offset, 5 * FLASH_PAGE_SIZE);
    assert_eq!(s.is_first, 0);
}

#[test]
fn msc_final_block_is_last_page_only() {
    let last = STAGING_IMAGE_SIZE / FLASH_PAGE_SIZE - 1;
    let s = msc_write_step(last, M0, M1, ME);
    assert_eq!(s.is_final, 1);
    assert_eq!(s.flash_offset, last * FLASH_PAGE_SIZE);
    assert_eq!(msc_write_step(last - 1, M0, M1, ME).is_final, 0);
}

#[test]
fn msc_crc_excludes_final_metadata_sector() {
    let last_crc = (STAGING_IMAGE_SIZE - FLASH_SECTOR_SIZE) / FLASH_PAGE_SIZE;
    assert_eq!(msc_write_step(last_crc - 1, M0, M1, ME).accumulate_crc, 1);
    assert_eq!(msc_write_step(last_crc, M0, M1, ME).accumulate_crc, 0);
    let last = STAGING_IMAGE_SIZE / FLASH_PAGE_SIZE - 1;
    assert_eq!(msc_write_step(last, M0, M1, ME).accumulate_crc, 0);
}

#[test]
fn receive_accumulates_last_word_before_metadata() {
    let mut hal = Hal::new();
    let mut state = Device::zeroed_for_test();
    let addr = STAGING_IMAGE_SIZE - FLASH_SECTOR_SIZE - 4;
    state.fw.fw.address = addr;
    state.fw.fw.checksum = 0xFFFF_FFFF;

    receive_fw_byte(&mut state, &mut hal, addr, &[0x01, 0x02, 0x03, 0x04]);

    assert_eq!(state.fw.fw.checksum, 0x49C3_0432);
}

#[test]
fn receive_crc_matches_flat_calc_crc32() {
    let mut hal = Hal::new();
    let mut state = Device::zeroed_for_test();
    state.fw.fw.address = 0;
    state.fw.fw.upgrade_in_progress = true;
    state.fw.fw.checksum = 0xFFFF_FFFF;

    let words: [u32; 4] = [0x1122_3344, 0xAABB_CCDD, 0x0000_0001, 0xFFFF_0000];
    let mut buffer = [0u8; 16];
    for (i, w) in words.iter().enumerate() {
        let le = w.to_le_bytes();
        buffer[i * 4..i * 4 + 4].copy_from_slice(&le);
        assert!(receive_fw_byte(&mut state, &mut hal, (i * 4) as u32, &le));
    }
    assert_eq!(!state.fw.fw.checksum, crc::calc_crc32(&buffer));
}

#[test]
fn receive_places_word_at_intra_page_offset() {
    let mut hal = Hal::new();
    let mut state = Device::zeroed_for_test();
    state.fw.fw.address = 0x1008;
    receive_fw_byte(&mut state, &mut hal, 0x1008, &[0xDE, 0xAD, 0xBE, 0xEF]);
    assert_eq!(&state.fw.page_buffer[8..12], &[0xDE, 0xAD, 0xBE, 0xEF]);
    assert_eq!(&state.fw.page_buffer[0..8], &[0u8; 8]);
}

#[test]
fn receive_writes_final_word_of_page() {
    let mut hal = Hal::new();
    let mut state = Device::zeroed_for_test();
    state.fw.fw.address = 0xFC;
    receive_fw_byte(&mut state, &mut hal, 0xFC, &[0xAA, 0xBB, 0xCC, 0xDD]);
    assert_eq!(&state.fw.page_buffer[252..256], &[0xAA, 0xBB, 0xCC, 0xDD]);
}

#[test]
fn send_fw_byte_encodes_address_little_endian() {
    let hal = Hal::new();
    let state = Device::zeroed_for_test();
    let r = send_fw_byte(&state, &hal, 0x030201).unwrap();
    assert_eq!(&r[0..4], &[0x01, 0x02, 0x03, 0x00]);
    assert_eq!(u32::from_le_bytes([r[0], r[1], r[2], r[3]]), 0x030201);
}

#[test]
fn send_fw_byte_serves_running_word_le() {
    let mut hal = Hal::new();
    let mut image = vec![0u8; 0x104];
    image[0x100..0x104].copy_from_slice(&0xDEAD_BEEFu32.to_le_bytes());
    hal.running_image = image;
    let state = Device::zeroed_for_test();
    let r = send_fw_byte(&state, &hal, 0x100).unwrap();
    assert_eq!(&r[4..8], &[0xEF, 0xBE, 0xAD, 0xDE]);
    assert_eq!(&r[0..4], &[0x00, 0x01, 0x00, 0x00]);
}

#[test]
fn receive_word_at_unaligned_page_tail_is_dropped() {
    let mut hal = Hal::new();
    let mut state = Device::zeroed_for_test();
    state.fw.fw.address = 0xFE;
    assert!(receive_fw_byte(&mut state, &mut hal, 0xFE, &[1, 2, 3, 4]));
    assert_eq!(&state.fw.page_buffer[248..256], &[0u8; 8]);
    assert_eq!(state.fw.fw.address, 0x102);
}

#[test]
fn abort_then_restart_reinitializes_crc() {
    let mut hal = Hal::new();
    let mut state = Device::zeroed_for_test();

    state.fw.fw.address = 100;
    state.fw.fw.checksum = 0x1234_5678;
    state.fw.fw.upgrade_in_progress = true;
    state.fw.running_fw.version = 100;

    assert!(!receive_fw_byte(&mut state, &mut hal, 200, &[0; 4]));
    assert_eq!(state.fw.fw.address, 0);
    assert!(!state.fw.fw.upgrade_in_progress);
    assert_eq!(state.fw.fw.checksum, 0x1234_5678);

    let data = [200u8, 0, 0, 0, 0, 0, 0, 0];
    let action = handle_simple_msg(PacketType::Heartbeat.to_u8(), &data, &state);
    assert!(matches!(action, HandlerAction::StartFwUpgrade(_)));
    apply_action(&action, &mut state);

    assert_eq!(state.fw.fw.checksum, 0xFFFF_FFFF);
    assert_eq!(state.fw.fw.address, 0);
    assert!(state.fw.fw.upgrade_in_progress);
}

#[test]
fn send_fw_byte_reads_the_requested_word() {
    let mut hal = Hal::new();
    hal.running_image = vec![1, 2, 3, 4, 5, 6, 7, 8];
    let state = Device::zeroed_for_test();
    let r = send_fw_byte(&state, &hal, 4).unwrap();
    assert_eq!(&r[4..8], &[5, 6, 7, 8]);
    let r = send_fw_byte(&state, &hal, 0).unwrap();
    assert_eq!(&r[4..8], &[1, 2, 3, 4]);
    let r = send_fw_byte(&state, &hal, 6).unwrap();
    assert_eq!(&r[4..8], &[7, 8, 0, 0]);
}
