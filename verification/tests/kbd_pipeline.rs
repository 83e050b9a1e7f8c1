use lib::constants::{HOTKEY_MODIFIER, HOTKEY_TOGGLE, KEYBOARD_MODIFIER_RIGHTALT, KEYBOARD_MODIFIER_RIGHTCTRL};
use lib::hal::Hal;
use lib::keyboard::HotkeyAction;
use lib::service::frontend::kbd_pipeline::{process_report, route_combined, KbdAction};
use lib::structs::Device;

#[test]
fn process_report_normal_key() {
    let mut state = Device::zeroed_for_test();
    let report = [0u8, 0, 0x04, 0, 0, 0, 0, 0];
    match process_report(&mut state, &report, 0) {
        KbdAction::Route => {}
        _ => panic!("Expected Route"),
    }
}

#[test]
fn process_report_reboot_requested() {
    let mut state = Device::zeroed_for_test();
    state.fw.reboot_requested = true;
    let report = [0u8; 8];
    match process_report(&mut state, &report, 0) {
        KbdAction::Dropped => {}
        _ => panic!("Expected Dropped when rebooting"),
    }
}

#[test]
fn route_combined_active_output() {
    let mut hal = Hal::new();
    let mut state = Device::zeroed_for_test();
    state.cfg.board_role = 0;
    state.cfg.active_output = 0;
    route_combined(&mut state, &mut hal);
    assert_eq!(hal.kbd_reports.len(), 1);
}

#[test]
fn route_combined_peer_output() {
    let mut hal = Hal::new();
    let mut state = Device::zeroed_for_test();
    state.cfg.board_role = 0;
    state.cfg.active_output = 1;
    route_combined(&mut state, &mut hal);
    assert!(hal.kbd_reports.is_empty());
    assert_eq!(hal.sent_packets.len(), 1);
}

#[test]
fn test_process_report_hotkey_passthrough() {
    let mut state = Device::zeroed_for_test();
    let modifier = KEYBOARD_MODIFIER_RIGHTALT | KEYBOARD_MODIFIER_RIGHTCTRL;
    let report = [modifier, 0, 0, 0, 0, 0, 0, 0];
    match process_report(&mut state, &report, 0) {
        KbdAction::HotkeyPassthrough { action, acknowledge } => {
            assert_eq!(action, HotkeyAction::MouseZoomToggle);
            assert!(acknowledge);
        }
        other => panic!("Expected HotkeyPassthrough, got {:?}", other),
    }
}

#[test]
fn test_route_combined_updates_timestamp() {
    let mut hal = Hal::new();
    hal.set_time(42_000_000);
    let mut state = Device::zeroed_for_test();
    state.cfg.board_role = 0;
    state.cfg.active_output = 0;
    route_combined(&mut state, &mut hal);
    assert_eq!(state.cfg.last_activity[0], 42_000_000);
}

#[test]
fn test_process_report_state_update() {
    let mut state = Device::zeroed_for_test();
    let report = [0x01, 0, 0x04, 0x05, 0, 0, 0, 0];
    let result = process_report(&mut state, &report, 0);
    assert!(matches!(result, KbdAction::Route));
    assert_eq!(state.hid.local_kbd_states[0].modifier, 0x01);
    assert_eq!(state.hid.local_kbd_states[0].keycode[0], 0x04);
    assert_eq!(state.hid.local_kbd_states[0].keycode[1], 0x05);
}

#[test]
fn test_process_report_hotkey_consumed_output_toggle() {
    let mut state = Device::zeroed_for_test();
    let report = [HOTKEY_MODIFIER, 0, HOTKEY_TOGGLE, 0, 0, 0, 0, 0];
    match process_report(&mut state, &report, 0) {
        KbdAction::HotkeyConsumed { action, acknowledge } => {
            assert_eq!(action, HotkeyAction::OutputToggle);
            assert!(!acknowledge);
        }
        other => panic!("Expected HotkeyConsumed(OutputToggle), got {:?}", other),
    }
}

#[test]
fn test_process_report_six_key_rollover() {
    let mut state = Device::zeroed_for_test();
    let report = [0x00, 0, 0x04, 0x05, 0x06, 0x07, 0x08, 0x09];
    match process_report(&mut state, &report, 0) {
        KbdAction::Route => {}
        other => panic!("Expected Route with 6-key rollover, got {:?}", other),
    }
    assert_eq!(state.hid.local_kbd_states[0].keycode, [0x04, 0x05, 0x06, 0x07, 0x08, 0x09]);
}

#[test]
fn second_keyboard_combines_with_first() {
    let mut hal = Hal::new();
    let mut state = Device::zeroed_for_test();
    process_report(&mut state, &[0x02, 0, 0x04, 0, 0, 0, 0, 0], 0);
    process_report(&mut state, &[0x01, 0, 0x04, 0x05, 0, 0, 0, 0], 1);
    route_combined(&mut state, &mut hal);
    assert_eq!(hal.kbd_reports[0], [0x03, 0, 0x04, 0x05, 0, 0, 0, 0]);
}
