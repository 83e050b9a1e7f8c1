use lib::cdc_console::DbgCommand;
use lib::constants::PacketType;
use lib::hal::Hal;
use lib::service::debug_console::{consumer_report, dbg_force_push, run_dbg_command};
use lib::structs::Device;

#[test]
fn consumer_report_is_little_endian() {
    assert_eq!(consumer_report(0x01A3), [0xA3, 0x01, 0, 0]);
}

#[test]
fn consumer_tap_on_active_output_queues_press_and_release() {
    let mut state = Device::zeroed_for_test();
    let mut hal = Hal::new();
    run_dbg_command(&mut state, &mut hal, DbgCommand::ConsumerTap(0xE9));
    assert_eq!(hal.cc_packets, vec![[0xE9, 0, 0, 0], [0, 0, 0, 0]]);
}

#[test]
fn key_tap_on_inactive_output_goes_to_peer() {
    let mut state = Device::zeroed_for_test();
    state.cfg.active_output = 1;
    let mut hal = Hal::new();
    run_dbg_command(&mut state, &mut hal, DbgCommand::KeyboardTap { modifier: 0x04, keycode: 0x2B });
    assert_eq!(hal.sent_packets.len(), 2);
    assert_eq!(hal.sent_packets[0], (vec![0x04, 0, 0x2B, 0, 0, 0, 0, 0], PacketType::KeyboardReport.to_u8()));
    assert_eq!(hal.sent_packets[1].0, vec![0u8; 8]);
}

#[test]
fn force_push_claims_highest_version() {
    let mut state = Device::zeroed_for_test();
    state.fw.running_fw.checksum = 0x1234_ABCD;
    state.cfg.active_output = 1;
    let mut hal = Hal::new();
    dbg_force_push(&state, &mut hal);
    assert_eq!(hal.sent_packets, vec![(vec![0xFF, 0xFF, 0xCD, 0xAB, 1, 0, 0, 0], PacketType::Heartbeat.to_u8())]);
}

#[test]
fn log_commands_leave_board_alone() {
    let mut state = Device::zeroed_for_test();
    let mut hal = Hal::new();
    run_dbg_command(&mut state, &mut hal, DbgCommand::LogDump);
    assert!(hal.sent_packets.is_empty());
    assert!(hal.cc_packets.is_empty());
}
