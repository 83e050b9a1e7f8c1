use lib::constants::{PacketType, OS_LINUX};
use lib::hal::Hal;
use lib::keyboard::HotkeyAction;
use lib::service::hotkey_dispatch::{
    dispatch_screensaver, execute_action, execute_screenlock, prepare_config_mode, update_screen_border,
    wipe_and_notify,
};
use lib::structs::Device;

#[test]
fn screenlock_local_output_queues_report() {
    let mut hal = Hal::new();
    let mut state = Device::zeroed_for_test();
    state.cfg.board_role = 0;
    state.cfg.config.output[0].os = OS_LINUX;
    state.cfg.config.output[1].os = OS_LINUX;
    execute_screenlock(&mut state, &mut hal);
    assert!(!hal.kbd_reports.is_empty());
    assert!(!hal.sent_packets.is_empty());
}

#[test]
fn screenlock_sends_key_then_release() {
    let mut hal = Hal::new();
    let mut state = Device::zeroed_for_test();
    state.cfg.board_role = 0;
    state.cfg.config.output[0].os = OS_LINUX;
    state.cfg.config.output[1].os = 0xFF;
    execute_screenlock(&mut state, &mut hal);
    assert_eq!(hal.kbd_reports.len(), 2);
}

#[test]
fn screenlock_peer_sends_two_packets() {
    let mut hal = Hal::new();
    let mut state = Device::zeroed_for_test();
    state.cfg.board_role = 1;
    state.cfg.config.output[0].os = OS_LINUX;
    state.cfg.config.output[1].os = 0xFF;
    execute_screenlock(&mut state, &mut hal);
    assert_eq!(hal.sent_packets.len(), 2);
}

#[test]
fn screenlock_linux_shortcut_is_gui_l() {
    let mut hal = Hal::new();
    let mut state = Device::zeroed_for_test();
    state.cfg.board_role = 0;
    state.cfg.config.output[0].os = OS_LINUX;
    state.cfg.config.output[1].os = 0xFF;
    execute_screenlock(&mut state, &mut hal);
    assert_eq!(hal.kbd_reports[0], [0x08, 0, 0x0F, 0, 0, 0, 0, 0]);
    assert_eq!(hal.kbd_reports[1], [0u8; 8]);
}

#[test]
fn config_mode_sets_boot_flag_and_reboot() {
    let mut hal = Hal::new();
    let mut state = Device::zeroed_for_test();
    state.cfg.config_mode_active = false;
    prepare_config_mode(&mut state, &mut hal);
    assert!(hal.boot_flag_set);
    assert!(state.fw.reboot_requested);
    assert_eq!(hal.kbd_reports.len(), 1);
}

#[test]
fn config_mode_skips_boot_flag_when_already_active() {
    let mut hal = Hal::new();
    let mut state = Device::zeroed_for_test();
    state.cfg.config_mode_active = true;
    prepare_config_mode(&mut state, &mut hal);
    assert!(!hal.boot_flag_set);
    assert!(state.fw.reboot_requested);
}

#[test]
fn border_active_saves_and_syncs() {
    let mut hal = Hal::new();
    let mut state = Device::zeroed_for_test();
    state.cfg.board_role = 0;
    state.cfg.active_output = 0;
    state.hid.pointer_y = 100;
    update_screen_border(&mut state, &mut hal);
    assert_eq!(state.cfg.config.output[0].border.top, 100);
    assert_eq!(hal.config_saved, 1);
    assert_eq!(hal.sent_packets.len(), 1);
}

#[test]
fn border_inactive_syncs_without_saving() {
    let mut hal = Hal::new();
    let mut state = Device::zeroed_for_test();
    state.cfg.board_role = 0;
    state.cfg.active_output = 1;
    update_screen_border(&mut state, &mut hal);
    assert_eq!(hal.config_saved, 0);
    assert_eq!(hal.sent_packets.len(), 1);
}

#[test]
fn border_out_of_range_output_noop() {
    let mut hal = Hal::new();
    let mut state = Device::zeroed_for_test();
    state.cfg.active_output = 99;
    update_screen_border(&mut state, &mut hal);
    assert_eq!(hal.config_saved, 0);
    assert!(hal.sent_packets.is_empty());
}

#[test]
fn screensaver_active_updates_locally() {
    let mut hal = Hal::new();
    let mut state = Device::zeroed_for_test();
    state.cfg.board_role = 0;
    state.cfg.active_output = 0;
    dispatch_screensaver(&mut state, &mut hal, 1);
    assert_eq!(state.cfg.config.output[0].screensaver.mode, 1);
    assert!(hal.sent_values.is_empty());
}

#[test]
fn screensaver_inactive_sends_to_peer() {
    let mut hal = Hal::new();
    let mut state = Device::zeroed_for_test();
    state.cfg.board_role = 0;
    state.cfg.active_output = 1;
    dispatch_screensaver(&mut state, &mut hal, 2);
    assert_eq!(hal.sent_values.len(), 1);
    assert_eq!(hal.sent_values[0], (2, PacketType::Screensaver.to_u8()));
}

#[test]
fn wipe_calls_in_order() {
    let mut hal = Hal::new();
    wipe_and_notify(&mut hal);
    assert_eq!(hal.config_wiped, 1);
    assert_eq!(hal.config_loaded, 1);
    assert_eq!(hal.sent_values.len(), 1);
    assert_eq!(hal.sent_values[0], (1, PacketType::WipeConfig.to_u8()));
}

#[test]
fn execute_output_toggle() {
    let mut hal = Hal::new();
    let mut state = Device::zeroed_for_test();
    state.cfg.board_role = 0;
    state.cfg.active_output = 0;
    state.cfg.switch_lock = false;
    execute_action(&mut state, &mut hal, HotkeyAction::OutputToggle);
    assert_eq!(state.cfg.active_output, 1);
    assert_eq!(hal.output_switched, Some(1));
}

#[test]
fn execute_output_toggle_blocked_by_switch_lock() {
    let mut hal = Hal::new();
    let mut state = Device::zeroed_for_test();
    state.cfg.board_role = 0;
    state.cfg.active_output = 0;
    state.cfg.switch_lock = true;
    execute_action(&mut state, &mut hal, HotkeyAction::OutputToggle);
    assert_eq!(state.cfg.active_output, 0);
    assert_eq!(hal.output_switched, None);
}

#[test]
fn execute_mouse_zoom_toggle_sends_to_peer() {
    let mut hal = Hal::new();
    let mut state = Device::zeroed_for_test();
    state.cfg.mouse_zoom = false;
    execute_action(&mut state, &mut hal, HotkeyAction::MouseZoomToggle);
    assert!(state.cfg.mouse_zoom);
    assert_eq!(hal.sent_values.len(), 1);
    assert_eq!(hal.sent_values[0], (1, PacketType::MouseZoom.to_u8()));
}

#[test]
fn execute_switch_lock_toggle_sends_to_peer() {
    let mut hal = Hal::new();
    let mut state = Device::zeroed_for_test();
    state.cfg.switch_lock = false;
    execute_action(&mut state, &mut hal, HotkeyAction::SwitchLockToggle);
    assert!(state.cfg.switch_lock);
    assert_eq!(hal.sent_values.len(), 1);
    assert_eq!(hal.sent_values[0], (1, PacketType::SwitchLock.to_u8()));
}

#[test]
fn execute_gaming_mode_toggle_sends_to_peer() {
    let mut hal = Hal::new();
    let mut state = Device::zeroed_for_test();
    state.cfg.gaming_mode = false;
    execute_action(&mut state, &mut hal, HotkeyAction::GamingModeToggle);
    assert!(state.cfg.gaming_mode);
    assert_eq!(hal.sent_values.len(), 1);
    assert_eq!(hal.sent_values[0], (1, PacketType::GamingMode.to_u8()));
}

#[test]
fn execute_output_toggle_twice_returns() {
    let mut hal = Hal::new();
    let mut state = Device::zeroed_for_test();
    execute_action(&mut state, &mut hal, HotkeyAction::OutputToggle);
    execute_action(&mut state, &mut hal, HotkeyAction::OutputToggle);
    assert_eq!(state.cfg.active_output, 0);
    assert_eq!(hal.output_switched, Some(0));
}

#[test]
fn execute_fw_upgrade_b_asks_peer() {
    let mut hal = Hal::new();
    let mut state = Device::zeroed_for_test();
    execute_action(&mut state, &mut hal, HotkeyAction::FwUpgradeB);
    assert_eq!(hal.sent_values, vec![(1, PacketType::FirmwareUpgrade.to_u8())]);
}

#[test]
fn output_toggle_twice_returns_to_first_output() {
    let mut state = Device::zeroed_for_test();
    let mut hal = Hal::new();
    lib::service::hotkey_dispatch::output_toggle(&mut state, &mut hal);
    assert_eq!(state.cfg.active_output, 1);
    lib::service::hotkey_dispatch::output_toggle(&mut state, &mut hal);
    assert_eq!(state.cfg.active_output, 0);
    assert_eq!(hal.output_switched, Some(0));
}
