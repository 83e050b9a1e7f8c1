use lib::constants::{PacketType, RAW_PACKET_LENGTH};
use lib::hal::Hal;
use lib::service::tasks::{
    check_system_health, flush_outbox, heartbeat_tick, led_blink_tick, process_hid_queue, screensaver_tick,
};
use lib::structs::Device;

#[test]
fn check_system_health_core1_alive() {
    let mut hal = Hal::new();
    hal.set_time(1_000_000);
    let mut state = Device::zeroed_for_test();
    state.cfg.core1_last_loop_pass = 900_000;
    assert!(check_system_health(&state, &mut hal));
    assert!(hal.watchdog_kicked);
}

#[test]
fn led_blink_drains_pending_resync() {
    let mut hal = Hal::new();
    let mut state = Device::zeroed_for_test();
    state.cfg.leds_resync_pending = true;
    led_blink_tick(&mut state, &mut hal);
    assert!(!state.cfg.leds_resync_pending, "flag must be cleared");
    assert_eq!(hal.leds_synced, 1, "sync_leds must run on the drain");
}

#[test]
fn led_blink_no_resync_when_not_pending() {
    let mut hal = Hal::new();
    let mut state = Device::zeroed_for_test();
    led_blink_tick(&mut state, &mut hal);
    assert_eq!(hal.leds_synced, 0);
}

#[test]
fn led_steady_active_idle_is_on() {
    let mut hal = Hal::new();
    hal.set_time(1_000_000);
    hal.board_led = false;
    let mut state = Device::zeroed_for_test();
    led_blink_tick(&mut state, &mut hal);
    assert!(hal.board_led, "active idle board LED must be on");
}

#[test]
fn led_steady_inactive_is_off() {
    let mut hal = Hal::new();
    hal.set_time(1_000_000);
    hal.board_led = true;
    let mut state = Device::zeroed_for_test();
    state.cfg.board_role = 1;
    led_blink_tick(&mut state, &mut hal);
    assert!(!hal.board_led, "inactive board LED must be off");
}

#[test]
fn led_active_flickers_on_hid_activity() {
    let mut hal = Hal::new();
    let mut state = Device::zeroed_for_test();
    hal.set_time(5_000);
    state.cfg.last_hid_activity_us = 5_000;
    led_blink_tick(&mut state, &mut hal);
    assert!(!hal.board_led, "short off blip during activity");
    hal.set_time(40_000);
    state.cfg.last_hid_activity_us = 40_000;
    led_blink_tick(&mut state, &mut hal);
    assert!(hal.board_led, "mostly on during activity");
}

#[test]
fn check_system_health_core1_hung() {
    let mut hal = Hal::new();
    hal.set_time(2_000_000);
    let mut state = Device::zeroed_for_test();
    state.cfg.core1_last_loop_pass = 1_000_000;
    assert!(!check_system_health(&state, &mut hal));
    assert!(!hal.watchdog_kicked);
}

#[test]
fn check_system_health_reboot_requested() {
    let mut hal = Hal::new();
    let mut state = Device::zeroed_for_test();
    state.fw.reboot_requested = true;
    assert!(!check_system_health(&state, &mut hal));
    assert!(!hal.watchdog_kicked);
}

#[test]
fn check_system_health_boundary_exactly_500ms() {
    let mut hal = Hal::new();
    hal.set_time(500_000);
    let mut state = Device::zeroed_for_test();
    state.cfg.core1_last_loop_pass = 0;
    assert!(!check_system_health(&state, &mut hal));
}

#[test]
fn check_system_health_boundary_499ms() {
    let mut hal = Hal::new();
    hal.set_time(499_999);
    let mut state = Device::zeroed_for_test();
    state.cfg.core1_last_loop_pass = 0;
    assert!(check_system_health(&state, &mut hal));
    assert!(hal.watchdog_kicked);
}

#[test]
fn flush_outbox_busy() {
    let mut hal = Hal::new();
    hal.tx_busy = true;
    flush_outbox(&mut hal);
    assert!(hal.transmitted.is_empty());
}

#[test]
fn flush_outbox_empty_queue() {
    let mut hal = Hal::new();
    flush_outbox(&mut hal);
    assert!(hal.transmitted.is_empty());
}

#[test]
fn flush_outbox_sends_packet() {
    let mut hal = Hal::new();
    let pkt = [1u8, 2, 3, 4, 5, 6, 7, 8, 9, 10];
    hal.outbound_queue_in.push(pkt);
    flush_outbox(&mut hal);
    assert_eq!(hal.transmitted.len(), 1);
    assert_eq!(hal.transmitted[0].1, RAW_PACKET_LENGTH as u32);
    assert_eq!(hal.transmitted[0].0, vec![0xAA, 0x55, 1, 2, 3, 4, 5, 6, 7, 8, 9, 10]);
}

#[test]
fn heartbeat_sends_packet() {
    let mut hal = Hal::new();
    let mut state = Device::zeroed_for_test();
    state.fw.running_fw.version = 0x1234;
    state.cfg.active_output = 1;
    heartbeat_tick(&state, &mut hal);
    let pkts = &hal.outbound_packets;
    assert_eq!(pkts.len(), 1);
    assert_eq!(pkts[0][0], PacketType::Heartbeat.to_u8());
    assert_eq!(pkts[0][1], 0x34);
    assert_eq!(pkts[0][2], 0x12);
    assert_eq!(pkts[0][5], 1);
}

#[test]
fn heartbeat_skips_during_upgrade() {
    let mut hal = Hal::new();
    let mut state = Device::zeroed_for_test();
    state.fw.fw.upgrade_in_progress = true;
    heartbeat_tick(&state, &mut hal);
    assert!(hal.outbound_packets.is_empty());
}

#[test]
fn heartbeat_config_mode_blinks() {
    let mut hal = Hal::new();
    hal.set_time(1_000);
    let mut state = Device::zeroed_for_test();
    state.cfg.config_mode_active = true;
    state.cfg.config_mode_timer = 999_999_999;
    heartbeat_tick(&state, &mut hal);
    assert_eq!(hal.blink_count, 1);
    assert_eq!(hal.outbound_packets.len(), 1);
}

#[test]
fn heartbeat_config_mode_timeout_reboots_without_heartbeat() {
    let mut hal = Hal::new();
    hal.set_time(1_000_000);
    let mut state = Device::zeroed_for_test();
    state.cfg.config_mode_active = true;
    state.cfg.config_mode_timer = 500_000;
    heartbeat_tick(&state, &mut hal);
    assert!(hal.rebooted);
    assert!(hal.outbound_packets.is_empty());
}

#[test]
fn heartbeat_bootsel_enters_boot_loader() {
    let mut hal = Hal::new();
    hal.bootsel_pressed = true;
    let state = Device::zeroed_for_test();
    heartbeat_tick(&state, &mut hal);
    assert!(hal.bootloader_requested);
}

#[test]
fn blink_sequence_toggles_then_restores() {
    let mut hal = Hal::new();
    let mut state = Device::zeroed_for_test();
    state.led.blinks_left = 2;
    state.led.last_led_change = 0;
    hal.set_time(100_000);
    led_blink_tick(&mut state, &mut hal);
    assert_eq!(hal.toggle_count, 1);
    assert_eq!(state.led.blinks_left, 1);
    hal.set_time(150_000);
    led_blink_tick(&mut state, &mut hal);
    assert_eq!(hal.toggle_count, 1);
    hal.set_time(190_000);
    led_blink_tick(&mut state, &mut hal);
    assert_eq!(hal.toggle_count, 2);
    assert_eq!(state.led.blinks_left, 0);
    assert_eq!(hal.leds_synced, 1);
}

#[test]
fn hid_queue_sends_and_pops() {
    let mut hal = Hal::new();
    let mut pkt = [0u8; 36];
    pkt[0] = 1;
    pkt[1] = 2;
    pkt[3] = 3;
    pkt[4] = 9;
    pkt[5] = 8;
    pkt[6] = 7;
    hal.hid_queue_in.push(pkt);
    assert!(process_hid_queue(&mut hal));
    assert!(hal.hid_queue_in.is_empty());
    assert_eq!(hal.hid_sent, vec![(1, 2, vec![9, 8, 7])]);
}

#[test]
fn hid_queue_waits_for_endpoint() {
    let mut hal = Hal::new();
    hal.hid_ready_map = 0;
    hal.hid_queue_in.push([0u8; 36]);
    assert!(!process_hid_queue(&mut hal));
    assert_eq!(hal.hid_queue_in.len(), 1);
}

#[test]
fn screensaver_moves_pointer_when_idle() {
    let mut hal = Hal::new();
    hal.set_time(10_000_000);
    let mut state = Device::zeroed_for_test();
    state.cfg.config.output[0].screensaver.mode = 1;
    state.cfg.config.output[0].screensaver.idle_time_us = 1_000_000;
    let report = [0u8, 1, 0, 1, 0, 0, 0, 0];
    let r = screensaver_tick(&state, &mut hal, 0, &report);
    assert_eq!(r, Some(10_000_000));
    assert_eq!(hal.mouse_reports, vec![report]);
    state.cfg.last_activity[0] = 9_500_000;
    assert_eq!(screensaver_tick(&state, &mut hal, 0, &report), None);
}

#[test]
fn receive_tick_skips_noise_and_dispatches_one_packet() {
    use_receive_tick();
}

fn use_receive_tick() {
    let mut state = lib::structs::Device::zeroed_for_test();
    let mut hal = lib::hal::Hal::new();
    let mut log = lib::service::peer_log::peer_log_init(0, 64, 64);
    let p = lib::packet::make_packet(lib::constants::PacketType::ConsumerControl.to_u8(), [0xE9, 0, 0, 0, 0, 0, 0, 0]);
    let raw = lib::packet::write_raw_packet(&p);
    let mut buf = vec![0x01u8, 0x02, 0x03];
    buf.extend_from_slice(&raw);
    buf.resize(1024, 0);
    hal.dma_buf = buf;
    hal.dma_write_pos = 15;
    assert!(lib::service::tasks::packet_receive_tick(&mut state, &mut hal, &mut log));
    assert_eq!(hal.dma_read_pos, 15);
    assert_eq!(hal.cc_packets, vec![[0xE9, 0, 0, 0]]);
    assert!(!lib::service::tasks::packet_receive_tick(&mut state, &mut hal, &mut log));
}

#[test]
fn receive_tick_waits_for_whole_packet() {
    let mut state = lib::structs::Device::zeroed_for_test();
    let mut hal = lib::hal::Hal::new();
    let mut log = lib::service::peer_log::peer_log_init(0, 64, 64);
    hal.dma_buf = vec![0xAA, 0x55, 1, 2, 3];
    hal.dma_write_pos = 5;
    assert!(!lib::service::tasks::packet_receive_tick(&mut state, &mut hal, &mut log));
    assert_eq!(hal.dma_read_pos, 0);
}

#[test]
fn ptr_delta_wraps_around_ring() {
    assert_eq!(lib::packet::get_ptr_delta(10, 4, 1024), 6);
    assert_eq!(lib::packet::get_ptr_delta(4, 1020, 1024), 8);
}
