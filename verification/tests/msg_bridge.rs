use lib::constants::MAX_SCREEN_COORD;
use lib::hal::Hal;
use lib::service::msg_bridge::{
    handle_kbd_from_peer, handle_mouse_from_peer, handle_output_select, handle_set_report, handle_sync_borders,
};
use lib::structs::Device;

#[test]
fn kbd_from_peer_routes_to_local() {
    let mut hal = Hal::new();
    let mut state = Device::zeroed();
    state.cfg.board_role = 0;
    state.cfg.active_output = 0;
    handle_kbd_from_peer(&mut state, &mut hal, &[0u8; 8]);
    assert_eq!(hal.kbd_reports.len(), 1);
}

#[test]
fn kbd_from_peer_routes_to_peer_and_updates_activity() {
    let mut hal = Hal::new();
    hal.set_time(5_000_000);
    let mut state = Device::zeroed();
    state.cfg.board_role = 0;
    state.cfg.active_output = 1;
    handle_kbd_from_peer(&mut state, &mut hal, &[0u8; 8]);
    assert!(hal.kbd_reports.is_empty());
    assert_eq!(hal.sent_packets.len(), 1);
    assert_eq!(state.cfg.last_activity[0], 5_000_000);
}

#[test]
fn mouse_from_peer_queues_and_updates_activity() {
    let mut hal = Hal::new();
    hal.set_time(1_000_000);
    let mut state = Device::zeroed();
    state.cfg.board_role = 0;
    handle_mouse_from_peer(&mut state, &mut hal, &[1, 10, 0, 20, 0, 0, 0, 0]);
    assert_eq!(hal.mouse_reports.len(), 1);
    assert_eq!(state.cfg.last_activity[0], 1_000_000);
}

#[test]
fn output_select_switches_and_syncs_leds() {
    let mut hal = Hal::new();
    let mut state = Device::zeroed();
    state.cfg.tud_connected = true;
    handle_output_select(&mut state, &mut hal, 1);
    assert_eq!(state.cfg.active_output, 1);
    assert_eq!(hal.leds_synced, 1);
    assert_eq!(hal.kbd_reports.len(), 1);
}

#[test]
fn sync_borders_active_sends_to_peer() {
    let mut hal = Hal::new();
    let mut state = Device::zeroed();
    state.cfg.board_role = 0;
    state.cfg.active_output = 0;
    state.hid.pointer_y = 100;
    handle_sync_borders(&mut state, &mut hal, None);
    assert_eq!(hal.sent_packets.len(), 1);
    assert_eq!(hal.config_saved, 1);
}

#[test]
fn sync_borders_remote_applies_data() {
    let mut hal = Hal::new();
    let mut state = Device::zeroed();
    state.cfg.board_role = 0;
    state.cfg.active_output = 1;
    let data = [100u8, 0, 0, 0, 200, 0, 0, 0];
    handle_sync_borders(&mut state, &mut hal, Some(&data));
    assert_eq!(state.cfg.config.output[1].border.top, 100);
    assert_eq!(state.cfg.config.output[1].border.bottom, 200);
    assert_eq!(hal.config_saved, 1);
}

#[test]
fn set_report_updates_leds_and_syncs_when_inactive() {
    let mut hal = Hal::new();
    let mut state = Device::zeroed();
    state.cfg.board_role = 0;
    state.cfg.active_output = 1;
    state.cfg.keyboard_connected = true;
    handle_set_report(&mut state, &mut hal, 0x07);
    assert_eq!(state.cfg.keyboard_leds[1], 0x07);
    assert_eq!(hal.leds_synced, 1);
}

#[test]
fn set_report_no_sync_when_active() {
    let mut hal = Hal::new();
    let mut state = Device::zeroed();
    state.cfg.board_role = 0;
    state.cfg.active_output = 0;
    state.cfg.keyboard_connected = true;
    handle_set_report(&mut state, &mut hal, 0x03);
    assert_eq!(state.cfg.keyboard_leds[1], 0x03);
    assert_eq!(hal.leds_synced, 0);
}

#[test]
fn test_output_select_not_connected() {
    let mut hal = Hal::new();
    let mut state = Device::zeroed();
    state.cfg.tud_connected = false;
    handle_output_select(&mut state, &mut hal, 1);
    assert_eq!(state.cfg.active_output, 1);
    assert!(hal.kbd_reports.is_empty());
    assert_eq!(hal.leds_synced, 1);
}

#[test]
fn test_sync_borders_out_of_range_output() {
    let mut hal = Hal::new();
    let mut state = Device::zeroed();
    state.cfg.active_output = 99;
    handle_sync_borders(&mut state, &mut hal, None);
    assert_eq!(hal.config_saved, 0);
    assert!(hal.sent_packets.is_empty());
}

#[test]
fn test_kbd_from_peer_always_updates_activity() {
    let mut hal = Hal::new();
    hal.set_time(7_000_000);
    let mut state = Device::zeroed();
    state.cfg.board_role = 0;
    state.cfg.active_output = 0;
    handle_kbd_from_peer(&mut state, &mut hal, &[0u8; 8]);
    assert_eq!(state.cfg.last_activity[0], 7_000_000);

    let mut hal2 = Hal::new();
    hal2.set_time(9_000_000);
    let mut state2 = Device::zeroed();
    state2.cfg.board_role = 0;
    state2.cfg.active_output = 1;
    handle_kbd_from_peer(&mut state2, &mut hal2, &[0u8; 8]);
    assert_eq!(state2.cfg.last_activity[0], 9_000_000);
}

#[test]
fn test_mouse_from_peer_updates_state() {
    let mut hal = Hal::new();
    hal.set_time(2_000_000);
    let mut state = Device::zeroed();
    state.cfg.board_role = 0;
    let data = [3, 0x00, 0x01, 0x00, 0x02, 0, 0, 0];
    handle_mouse_from_peer(&mut state, &mut hal, &data);
    assert_eq!(state.hid.mouse_buttons, 3);
    assert_eq!(state.hid.pointer_x, 256);
    assert_eq!(state.hid.pointer_y, 512);
    assert_eq!(state.cfg.last_activity[0], 2_000_000);
}

#[test]
fn test_kbd_from_peer_combined_routing() {
    let mut hal = Hal::new();
    let mut state = Device::zeroed();
    state.cfg.board_role = 0;
    state.cfg.active_output = 0;
    state.hid.local_kbd_states[0].modifier = 0x01;
    state.hid.max_kbd_idx = 0;
    let peer_report: [u8; 8] = [0x02, 0, 0, 0, 0, 0, 0, 0];
    handle_kbd_from_peer(&mut state, &mut hal, &peer_report);
    assert_eq!(hal.kbd_reports.len(), 1);
    assert_eq!(hal.kbd_reports[0][0], 0x03);
}

#[test]
fn test_handle_mouse_from_peer_role_out_of_range() {
    let mut hal = Hal::new();
    hal.set_time(1_000_000);
    let mut state = Device::zeroed();
    state.cfg.board_role = 5;
    let data = [1, 10, 0, 20, 0, 0, 0, 0];
    handle_mouse_from_peer(&mut state, &mut hal, &data);
    assert_eq!(hal.mouse_reports.len(), 1);
    assert_eq!(state.cfg.last_activity[0], 0);
    assert_eq!(state.cfg.last_activity[1], 0);
}

#[test]
fn test_sync_borders_active_max_coord_is_bottom() {
    let mut hal = Hal::new();
    let mut state = Device::zeroed();
    state.cfg.board_role = 0;
    state.cfg.active_output = 0;
    state.hid.pointer_y = MAX_SCREEN_COORD;
    handle_sync_borders(&mut state, &mut hal, None);
    assert_eq!(state.cfg.config.output[0].border.bottom, MAX_SCREEN_COORD as i32);
    assert_eq!(state.cfg.config.output[0].border.top, 0);
    assert_eq!(hal.sent_packets.len(), 1);
    assert_eq!(hal.config_saved, 1);
}

#[test]
fn sync_borders_sends_both_borders_little_endian() {
    let mut hal = Hal::new();
    let mut state = Device::zeroed();
    state.cfg.config.output[0].border.bottom = 0x0102;
    state.hid.pointer_y = 0x10;
    handle_sync_borders(&mut state, &mut hal, None);
    assert_eq!(hal.sent_packets[0].0, vec![0x10, 0, 0, 0, 0x02, 0x01, 0, 0]);
}
