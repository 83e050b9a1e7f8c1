use lib::constants::PacketType;
use lib::crc::calc_checksum;
use lib::hal::Hal;
use lib::packet::{make_packet as build, UartPacket};
use lib::service::packet_dispatch::dispatch_packet;
use lib::service::peer_log::{peer_log_init, PeerLog};
use lib::structs::Device;

fn make_packet(ptype: PacketType, data: [u8; 8]) -> UartPacket {
    build(ptype.to_u8(), data)
}

fn log() -> PeerLog {
    peer_log_init(0, 256, 64)
}

#[test]
fn dispatch_keyboard_report() {
    let mut hal = Hal::new();
    let mut state = Device::zeroed_for_test();
    state.cfg.board_role = 0;
    state.cfg.active_output = 0;
    let pkt = make_packet(PacketType::KeyboardReport, [0x01, 0, 0x04, 0, 0, 0, 0, 0]);
    dispatch_packet(&mut state, &mut hal, &mut log(), &pkt);
    assert_eq!(hal.kbd_reports.len(), 1);
}

#[test]
fn dispatch_mouse_report() {
    let mut hal = Hal::new();
    hal.set_time(1_000_000);
    let mut state = Device::zeroed_for_test();
    state.cfg.board_role = 0;
    let pkt = make_packet(PacketType::MouseReport, [1, 10, 0, 20, 0, 0, 0, 0]);
    dispatch_packet(&mut state, &mut hal, &mut log(), &pkt);
    assert_eq!(hal.mouse_reports.len(), 1);
}

#[test]
fn dispatch_consumer_control() {
    let mut hal = Hal::new();
    let mut state = Device::zeroed_for_test();
    let pkt = make_packet(PacketType::ConsumerControl, [0xE9, 0x00, 0, 0, 0, 0, 0, 0]);
    dispatch_packet(&mut state, &mut hal, &mut log(), &pkt);
    assert_eq!(hal.cc_packets.len(), 1);
}

#[test]
fn dispatch_output_select() {
    let mut hal = Hal::new();
    let mut state = Device::zeroed_for_test();
    state.cfg.tud_connected = true;
    let pkt = make_packet(PacketType::OutputSelect, [1, 0, 0, 0, 0, 0, 0, 0]);
    dispatch_packet(&mut state, &mut hal, &mut log(), &pkt);
    assert_eq!(state.cfg.active_output, 1);
    assert_eq!(hal.leds_synced, 1);
}

#[test]
fn dispatch_output_select_out_of_range_ignored() {
    let mut hal = Hal::new();
    let mut state = Device::zeroed_for_test();
    state.cfg.tud_connected = true;
    state.cfg.active_output = 1;
    let pkt = make_packet(PacketType::OutputSelect, [7, 0, 0, 0, 0, 0, 0, 0]);
    dispatch_packet(&mut state, &mut hal, &mut log(), &pkt);
    assert_eq!(state.cfg.active_output, 1);
    assert_eq!(hal.leds_synced, 0);
}

#[test]
fn dispatch_flash_led() {
    let mut hal = Hal::new();
    let mut state = Device::zeroed_for_test();
    let pkt = make_packet(PacketType::FlashLed, [0; 8]);
    dispatch_packet(&mut state, &mut hal, &mut log(), &pkt);
    assert_eq!(hal.blink_count, 1);
}

#[test]
fn dispatch_save_config() {
    let mut hal = Hal::new();
    let mut state = Device::zeroed_for_test();
    let pkt = make_packet(PacketType::SaveConfig, [0; 8]);
    dispatch_packet(&mut state, &mut hal, &mut log(), &pkt);
    assert_eq!(hal.config_saved, 1);
}

#[test]
fn dispatch_wipe_config() {
    let mut hal = Hal::new();
    let mut state = Device::zeroed_for_test();
    let pkt = make_packet(PacketType::WipeConfig, [0; 8]);
    dispatch_packet(&mut state, &mut hal, &mut log(), &pkt);
    assert_eq!(hal.config_wiped, 1);
    assert_eq!(hal.config_loaded, 1);
}

#[test]
fn dispatch_mouse_zoom() {
    let mut hal = Hal::new();
    let mut state = Device::zeroed_for_test();
    let pkt = make_packet(PacketType::MouseZoom, [1, 0, 0, 0, 0, 0, 0, 0]);
    dispatch_packet(&mut state, &mut hal, &mut log(), &pkt);
    assert!(state.cfg.mouse_zoom);
}

#[test]
fn dispatch_switch_lock() {
    let mut hal = Hal::new();
    let mut state = Device::zeroed_for_test();
    let pkt = make_packet(PacketType::SwitchLock, [1, 0, 0, 0, 0, 0, 0, 0]);
    dispatch_packet(&mut state, &mut hal, &mut log(), &pkt);
    assert!(state.cfg.switch_lock);
}

#[test]
fn dispatch_gaming_mode() {
    let mut hal = Hal::new();
    let mut state = Device::zeroed_for_test();
    let pkt = make_packet(PacketType::GamingMode, [1, 0, 0, 0, 0, 0, 0, 0]);
    dispatch_packet(&mut state, &mut hal, &mut log(), &pkt);
    assert!(state.cfg.gaming_mode);
}

#[test]
fn dispatch_bad_checksum_ignored() {
    let mut hal = Hal::new();
    let mut state = Device::zeroed_for_test();
    let pkt = UartPacket {
        ptype: PacketType::KeyboardReport.to_u8(),
        data: [0x01, 0, 0x04, 0, 0, 0, 0, 0],
        checksum: 0xFF,
    };
    dispatch_packet(&mut state, &mut hal, &mut log(), &pkt);
    assert!(hal.kbd_reports.is_empty());
}

#[test]
fn dispatch_proxy_packet() {
    let mut hal = Hal::new();
    let mut state = Device::zeroed_for_test();
    let pkt = make_packet(PacketType::ProxyPacket, [PacketType::FlashLed.to_u8(), 1, 2, 3, 4, 5, 6, 7]);
    dispatch_packet(&mut state, &mut hal, &mut log(), &pkt);
    let pkts = &hal.sent_packets;
    assert_eq!(pkts.len(), 1);
    assert_eq!(pkts[0].1, PacketType::FlashLed.to_u8());
}

#[test]
fn dispatch_sync_borders() {
    let mut hal = Hal::new();
    let mut state = Device::zeroed_for_test();
    state.cfg.board_role = 0;
    state.cfg.active_output = 1;
    let data = [100u8, 0, 0, 0, 200, 0, 0, 0];
    let pkt = make_packet(PacketType::SyncBorders, data);
    dispatch_packet(&mut state, &mut hal, &mut log(), &pkt);
    assert_eq!(state.cfg.config.output[1].border.top, 100);
    assert_eq!(state.cfg.config.output[1].border.bottom, 200);
}

#[test]
fn dispatch_screensaver_mode() {
    let mut hal = Hal::new();
    let mut state = Device::zeroed_for_test();
    state.cfg.board_role = 0;
    let pkt = make_packet(PacketType::Screensaver, [2, 0, 0, 0, 0, 0, 0, 0]);
    dispatch_packet(&mut state, &mut hal, &mut log(), &pkt);
    assert_eq!(state.cfg.config.output[0].screensaver.mode, 2);
}

#[test]
fn dispatch_kbd_set_report() {
    let mut hal = Hal::new();
    let mut state = Device::zeroed_for_test();
    state.cfg.board_role = 0;
    state.cfg.keyboard_connected = true;
    state.cfg.active_output = 1;
    let pkt = make_packet(PacketType::KbdSetReport, [0x07, 0, 0, 0, 0, 0, 0, 0]);
    dispatch_packet(&mut state, &mut hal, &mut log(), &pkt);
    assert_eq!(state.cfg.keyboard_leds[1], 0x07);
    assert_eq!(hal.leds_synced, 1);
}

#[test]
fn dispatch_unknown_packet_type_ignored() {
    let mut hal = Hal::new();
    let mut state = Device::zeroed_for_test();
    let pkt = UartPacket { ptype: 0xFF, data: [0; 8], checksum: calc_checksum(&[0; 8]) };
    dispatch_packet(&mut state, &mut hal, &mut log(), &pkt);
    assert!(hal.kbd_reports.is_empty());
    assert!(hal.mouse_reports.is_empty());
    assert!(hal.sent_packets.is_empty());
}

#[test]
fn dispatch_system_control_goes_through_simple() {
    let mut hal = Hal::new();
    let mut state = Device::zeroed_for_test();
    let pkt = make_packet(PacketType::SystemControl, [0x01, 0x00, 0, 0, 0, 0, 0, 0]);
    dispatch_packet(&mut state, &mut hal, &mut log(), &pkt);
    assert!(hal.system_packets.is_empty());
}

#[test]
fn dispatch_heartbeat_updates_tud_connected() {
    let mut hal = Hal::new();
    let mut state = Device::zeroed_for_test();
    state.cfg.tud_connected = false;
    let pkt = make_packet(PacketType::Heartbeat, [1, 0, 0, 0, 0, 0, 0, 0]);
    dispatch_packet(&mut state, &mut hal, &mut log(), &pkt);
}

#[test]
fn dispatch_firmware_upgrade_reboots() {
    let mut hal = Hal::new();
    let mut state = Device::zeroed_for_test();
    let pkt = make_packet(PacketType::FirmwareUpgrade, [0; 8]);
    dispatch_packet(&mut state, &mut hal, &mut log(), &pkt);
    assert!(hal.bootloader_requested);
}

#[test]
fn dispatch_reboot_packet() {
    let mut hal = Hal::new();
    let mut state = Device::zeroed_for_test();
    let _pkt = make_packet(PacketType::Reboot, [0; 8]);
    let pkt2 = make_packet(PacketType::SaveConfig, [0; 8]);
    dispatch_packet(&mut state, &mut hal, &mut log(), &pkt2);
    assert_eq!(hal.config_saved, 1);
}

#[test]
fn dispatch_reboot_requests_reboot() {
    let mut hal = Hal::new();
    let mut state = Device::zeroed_for_test();
    let pkt = make_packet(PacketType::Reboot, [0; 8]);
    dispatch_packet(&mut state, &mut hal, &mut log(), &pkt);
    assert!(hal.rebooted);
}

#[test]
fn dispatch_debug_log_goes_to_output_ring_only() {
    let mut hal = Hal::new();
    let mut state = Device::zeroed_for_test();
    let mut l = log();
    let pkt = make_packet(PacketType::DebugLog, *b"hi\n\0\0\0\0\0");
    dispatch_packet(&mut state, &mut hal, &mut l, &pkt);
    assert_eq!(l.out_ring.used(), 3);
    assert_eq!(l.tx_ring.used(), 0);
}

#[test]
fn dispatch_request_byte_replies_with_word() {
    let mut hal = Hal::new();
    let mut image = vec![0u8; 0x104];
    image[0x100..0x104].copy_from_slice(&[1, 2, 3, 4]);
    hal.running_image = image;
    let mut state = Device::zeroed_for_test();
    let pkt = make_packet(PacketType::RequestByte, [0x00, 0x01, 0, 0, 0, 0, 0, 0]);
    dispatch_packet(&mut state, &mut hal, &mut log(), &pkt);
    assert_eq!(hal.sent_packets.len(), 1);
    assert_eq!(hal.sent_packets[0].0, vec![0x00, 0x01, 0, 0, 1, 2, 3, 4]);
    assert_eq!(hal.sent_packets[0].1, PacketType::ResponseByte.to_u8());
}

#[test]
fn dispatch_heartbeat_from_newer_peer_starts_upgrade() {
    let mut hal = Hal::new();
    let mut state = Device::zeroed_for_test();
    state.fw.running_fw.version = 5;
    let pkt = make_packet(PacketType::Heartbeat, [6, 0, 0, 0, 0, 0, 0, 0]);
    dispatch_packet(&mut state, &mut hal, &mut log(), &pkt);
    assert!(state.fw.fw.upgrade_in_progress);
    assert_eq!(state.fw.fw.checksum, 0xFFFF_FFFF);
    assert_eq!(state.fw.fw.address, 0);
}
