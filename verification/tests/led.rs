use lib::hal::Hal;
use lib::service::led::{led_sync_needed, send_kbd_led_report, sync_indicators};
use lib::structs::{DeviceConfig, DeviceHid};

fn cfg_with_kbd() -> DeviceConfig {
    let mut cfg = DeviceConfig::zeroed();
    cfg.keyboard_connected = true;
    cfg.active_output = 1;
    cfg.keyboard_leds_desired[1] = 0x07;
    cfg.keyboard_leds_actual = 0;
    cfg
}

#[test]
fn sync_needed_when_actual_differs_from_desired() {
    let cfg = cfg_with_kbd();
    assert_eq!(led_sync_needed(&cfg), Some(0x07));
}

#[test]
fn sync_not_needed_when_actual_matches() {
    let mut cfg = cfg_with_kbd();
    cfg.keyboard_leds_actual = 0x07;
    assert_eq!(led_sync_needed(&cfg), None);
}

#[test]
fn sync_not_needed_without_keyboard() {
    let mut cfg = cfg_with_kbd();
    cfg.keyboard_connected = false;
    assert_eq!(led_sync_needed(&cfg), None);
}

#[test]
fn sync_tracks_active_output_not_board_role() {
    let mut cfg = cfg_with_kbd();
    cfg.keyboard_leds_desired[0] = 0x01;
    cfg.active_output = 0;
    assert_eq!(led_sync_needed(&cfg), Some(0x01));
}

#[test]
fn sync_indicators_lights_board_led_and_sends_leds() {
    let mut hal = Hal::new();
    let mut cfg = cfg_with_kbd();
    cfg.board_role = 1;
    let mut hid = DeviceHid::zeroed();
    hid.kbd_dev_addr = 3;
    hid.kbd_instance = 1;
    sync_indicators(&mut cfg, &hid, &mut hal);
    assert!(cfg.onboard_led_state);
    assert!(hal.board_led);
    assert_eq!(hal.kbd_led_reports, vec![(3, 1, 0x07)]);
}

#[test]
fn send_kbd_led_report_needs_keyboard() {
    let mut hal = Hal::new();
    let mut cfg = cfg_with_kbd();
    let hid = DeviceHid::zeroed();
    send_kbd_led_report(&cfg, &hid, 0x02, &mut hal);
    assert_eq!(hal.kbd_led_reports.len(), 1);
    cfg.keyboard_connected = false;
    send_kbd_led_report(&cfg, &hid, 0x02, &mut hal);
    assert_eq!(hal.kbd_led_reports.len(), 1);
}
