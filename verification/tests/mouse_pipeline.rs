use lib::constants::{ABSOLUTE, MAX_SCREEN_COORD, MIN_SCREEN_COORD, OS_MACOS, RELATIVE};
use lib::hal::Hal;
use lib::mouse::{MouseValues, SwitchDirection};
use lib::service::frontend::mouse_pipeline::{
    do_screen_switch, output_report_raw, process_report, switch_to_peer, MACOS_SWITCH_MOVE_COUNT,
};
use lib::structs::Device;

fn make_state_for_test() -> Device {
    let mut state = Device::zeroed_for_test();
    state.cfg.active_output = 0;
    state.cfg.board_role = 0;
    state.cfg.config.output[0].speed_x = 16;
    state.cfg.config.output[0].speed_y = 16;
    state
}

#[test]
fn process_report_updates_position() {
    let mut hal = Hal::new();
    let mut state = make_state_for_test();
    state.hid.pointer_x = 1000;
    state.hid.pointer_y = 1000;
    let values = MouseValues { move_x: 100, move_y: -50, wheel: 0, pan: 0, buttons: 0 };
    process_report(&mut state, &mut hal, &values);
    assert_ne!(state.hid.pointer_x, 1000);
    assert_eq!(hal.mouse_reports.len(), 1);
}

#[test]
fn macos_desktop_switch_releases_buttons_on_relative_moves() {
    let mut hal = Hal::new();
    let mut state = make_state_for_test();
    state.cfg.config.output[0].os = OS_MACOS;
    state.cfg.config.output[0].pos = 2;
    state.cfg.config.output[0].screen_index = 1;
    state.cfg.config.output[0].screen_count = 2;
    state.hid.mouse_buttons = 1;
    do_screen_switch(&mut state, &mut hal, SwitchDirection::Right);
    let mut abs_count = 0;
    let mut rel_count = 0;
    for r in hal.mouse_reports.iter() {
        if r[7] == ABSOLUTE {
            abs_count += 1;
            assert_eq!(r[0], 1, "edge report keeps held buttons");
        } else if r[7] == RELATIVE {
            rel_count += 1;
            assert_eq!(r[0], 0, "relative moves must not repeat held buttons");
        }
    }
    assert_eq!(abs_count, 1);
    assert_eq!(rel_count, MACOS_SWITCH_MOVE_COUNT);
}

#[test]
fn process_report_routes_to_peer_when_inactive() {
    let mut hal = Hal::new();
    let mut state = make_state_for_test();
    state.cfg.active_output = 1;
    let values = MouseValues { move_x: 10, move_y: 0, wheel: 0, pan: 0, buttons: 0 };
    process_report(&mut state, &mut hal, &values);
    assert!(hal.mouse_reports.is_empty());
    assert_eq!(hal.sent_packets.len(), 1);
}

#[test]
fn switch_to_peer_parks_mouse_top() {
    let mut hal = Hal::new();
    let mut state = make_state_for_test();
    state.cfg.config.output[0].mouse_park_pos = 0;
    switch_to_peer(&mut state, &mut hal, 0, 1, 2);
    assert_eq!(hal.output_switched, Some(1));
    assert_eq!(state.hid.pointer_x, MIN_SCREEN_COORD);
}

#[test]
fn switch_to_peer_parks_mouse_bottom() {
    let mut hal = Hal::new();
    let mut state = make_state_for_test();
    state.cfg.config.output[0].mouse_park_pos = 1;
    switch_to_peer(&mut state, &mut hal, 0, 1, 1);
    assert_eq!(hal.output_switched, Some(1));
    assert_eq!(state.hid.pointer_x, MAX_SCREEN_COORD);
}

#[test]
fn do_screen_switch_locked() {
    let mut hal = Hal::new();
    let mut state = make_state_for_test();
    state.cfg.switch_lock = true;
    do_screen_switch(&mut state, &mut hal, SwitchDirection::Left);
    assert_eq!(hal.output_switched, None);
}

#[test]
fn do_screen_switch_gaming_mode() {
    let mut hal = Hal::new();
    let mut state = make_state_for_test();
    state.cfg.gaming_mode = true;
    do_screen_switch(&mut state, &mut hal, SwitchDirection::Right);
    assert_eq!(hal.output_switched, None);
}

#[test]
fn output_report_raw_routes_correctly() {
    let mut hal = Hal::new();
    let mut state = Device::zeroed_for_test();
    let report = [1u8, 2, 3, 4, 5, 6, 7, 8];
    state.cfg.board_role = 0;
    state.cfg.active_output = 0;
    output_report_raw(&mut hal, &state, &report);
    assert_eq!(hal.mouse_reports.len(), 1);
    state.cfg.active_output = 1;
    output_report_raw(&mut hal, &state, &report);
    assert_eq!(hal.sent_packets.len(), 1);
}

#[test]
fn test_process_report_with_zoom() {
    let mut hal = Hal::new();
    let mut state_zoom = make_state_for_test();
    state_zoom.hid.pointer_x = 16000;
    state_zoom.hid.pointer_y = 16000;
    state_zoom.cfg.mouse_zoom = true;
    let mut state_normal = make_state_for_test();
    state_normal.hid.pointer_x = 16000;
    state_normal.hid.pointer_y = 16000;
    state_normal.cfg.mouse_zoom = false;
    let values = MouseValues { move_x: 200, move_y: 100, wheel: 0, pan: 0, buttons: 0 };
    process_report(&mut state_zoom, &mut hal, &values);
    let zoom_x = state_zoom.hid.pointer_x;
    let mut hal2 = Hal::new();
    process_report(&mut state_normal, &mut hal2, &values);
    let normal_x = state_normal.hid.pointer_x;
    assert!(zoom_x < normal_x, "zoom_x={} should be less than normal_x={}", zoom_x, normal_x);
}

#[test]
fn test_process_report_gaming_mode_no_switch() {
    let mut hal = Hal::new();
    let mut state = make_state_for_test();
    state.cfg.gaming_mode = true;
    state.hid.pointer_x = 100;
    let values = MouseValues { move_x: -500, move_y: 0, wheel: 0, pan: 0, buttons: 0 };
    process_report(&mut state, &mut hal, &values);
    assert_eq!(hal.output_switched, None);
    assert_eq!(hal.mouse_reports.len(), 1);
}

#[test]
fn test_switch_to_peer_preserves_y() {
    let mut hal = Hal::new();
    let mut state = make_state_for_test();
    state.cfg.config.output[0].mouse_park_pos = 2;
    state.hid.pointer_y = 12345;
    switch_to_peer(&mut state, &mut hal, 0, 1, 2);
    assert_eq!(hal.output_switched, Some(1));
    assert!(!hal.mouse_reports.is_empty());
    let hidden = &hal.mouse_reports[0];
    let y_in_report = i16::from_le_bytes([hidden[3], hidden[4]]);
    assert_eq!(y_in_report, 12345);
}

#[test]
fn test_process_report_screen_count_one_no_switch() {
    let mut hal = Hal::new();
    let mut state = make_state_for_test();
    state.cfg.config.output[0].screen_count = 1;
    state.cfg.config.output[0].screen_index = 1;
    state.cfg.config.output[0].pos = 2;
    state.hid.pointer_x = 100;
    let values = MouseValues { move_x: -500, move_y: 0, wheel: 0, pan: 0, buttons: 0 };
    process_report(&mut state, &mut hal, &values);

    let mut hal2 = Hal::new();
    let mut state2 = make_state_for_test();
    state2.cfg.config.output[0].screen_count = 1;
    state2.cfg.config.output[0].screen_index = 1;
    state2.cfg.config.output[0].pos = 1;
    state2.hid.pointer_x = 100;
    let values = MouseValues { move_x: -500, move_y: 0, wheel: 0, pan: 0, buttons: 0 };
    process_report(&mut state2, &mut hal2, &values);
    assert_eq!(hal2.output_switched, None);
}

#[test]
fn test_process_report_output_out_of_range() {
    let mut hal = Hal::new();
    let mut state = make_state_for_test();
    state.cfg.active_output = 99;
    let values = MouseValues { move_x: 100, move_y: 50, wheel: 0, pan: 0, buttons: 0 };
    process_report(&mut state, &mut hal, &values);
    assert!(hal.mouse_reports.is_empty());
    assert!(hal.sent_packets.is_empty());
}

#[test]
fn test_border_y_scaling_accuracy() {
    let mut hal = Hal::new();
    let mut state = make_state_for_test();
    state.cfg.config.output[0].border.top = 1000;
    state.cfg.config.output[0].border.bottom = 2000;
    state.cfg.config.output[0].number = 0;
    state.cfg.config.output[1].border.top = 3000;
    state.cfg.config.output[1].border.bottom = 4000;
    state.cfg.config.output[1].number = 1;
    state.hid.pointer_y = 16000;
    switch_to_peer(&mut state, &mut hal, 0, 1, 2);
    let from_top = 1000i64;
    let from_bottom = 2000i64;
    let to_top = 3000i64;
    let to_bottom = 4000i64;
    let from_range = 32767 - from_top - from_bottom;
    let to_range = 32767 - to_top - to_bottom;
    let expected = ((16000 - from_top) * to_range / from_range + to_top) as i16;
    assert_eq!(state.hid.pointer_y, expected);
}

#[test]
fn crossing_left_edge_switches_to_other_computer() {
    let mut hal = Hal::new();
    let mut state = make_state_for_test();
    state.cfg.config.output[0].pos = 2;
    state.cfg.config.output[0].screen_index = 1;
    state.cfg.config.output[0].screen_count = 1;
    state.hid.pointer_x = 100;
    let values = MouseValues { move_x: -500, move_y: 0, wheel: 0, pan: 0, buttons: 0 };
    process_report(&mut state, &mut hal, &values);
    assert_eq!(hal.output_switched, Some(1));
    assert_eq!(state.hid.pointer_x, MAX_SCREEN_COORD);
}
