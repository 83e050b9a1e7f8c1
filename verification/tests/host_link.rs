use lib::hal::Hal;
use lib::service::backend::host_link::{release_all_keys, send_pending_kbd, send_pending_mouse};
use lib::structs::Device;

#[test]
fn send_kbd_not_connected() {
    let mut hal = Hal::new();
    hal.kbd_queue_in.push([0x01, 0, 0x04, 0, 0, 0, 0, 0]);
    let mut state = Device::zeroed_for_test();
    state.cfg.tud_connected = false;
    send_pending_kbd(&state, &mut hal);
    assert_eq!(hal.kbd_queue_in.len(), 1);
}

#[test]
fn send_kbd_empty_queue() {
    let mut hal = Hal::new();
    let mut state = Device::zeroed_for_test();
    state.cfg.tud_connected = true;
    send_pending_kbd(&state, &mut hal);
}

#[test]
fn send_kbd_delivers_report() {
    let mut hal = Hal::new();
    hal.kbd_queue_in.push([0x01, 0, 0x04, 0, 0, 0, 0, 0]);
    let mut state = Device::zeroed_for_test();
    state.cfg.tud_connected = true;
    send_pending_kbd(&state, &mut hal);
    assert!(hal.kbd_queue_in.is_empty());
    assert_eq!(hal.host_kbd_reports, vec![(1, 0x01, vec![0x04, 0, 0, 0, 0, 0])]);
}

#[test]
fn send_mouse_not_connected() {
    let mut hal = Hal::new();
    hal.mouse_queue_in.push([1, 10, 0, 20, 0, 0, 0, 0]);
    let mut state = Device::zeroed_for_test();
    state.cfg.tud_connected = false;
    send_pending_mouse(&state, &mut hal);
    assert_eq!(hal.mouse_queue_in.len(), 1);
}

#[test]
fn release_sends_empty_report() {
    let mut hal = Hal::new();
    let mut state = Device::zeroed_for_test();
    release_all_keys(&mut state, &mut hal);
    assert_eq!(hal.kbd_reports.len(), 1);
    assert_eq!(hal.kbd_reports[0], [0u8; 8]);
}

#[test]
fn test_send_kbd_suspended_wakes() {
    let mut hal = Hal::new();
    hal.usb_suspended = true;
    hal.kbd_queue_in.push([0x01, 0, 0x04, 0, 0, 0, 0, 0]);
    let mut state = Device::zeroed_for_test();
    state.cfg.tud_connected = true;
    send_pending_kbd(&state, &mut hal);
    assert!(hal.kbd_queue_in.is_empty());
    assert_eq!(hal.remote_wakeups, 1);
}

#[test]
fn test_send_kbd_hid_not_ready() {
    let mut hal = Hal::new();
    hal.hid_ready_map = 0;
    hal.kbd_queue_in.push([0x01, 0, 0x04, 0, 0, 0, 0, 0]);
    let mut state = Device::zeroed_for_test();
    state.cfg.tud_connected = true;
    send_pending_kbd(&state, &mut hal);
    assert_eq!(hal.kbd_queue_in.len(), 1);
}

#[test]
fn send_mouse_delivers_decoded_report() {
    let mut hal = Hal::new();
    hal.mouse_queue_in.push([1, 0x10, 0x00, 0xFF, 0xFF, 2, 0, 0]);
    let mut state = Device::zeroed_for_test();
    state.cfg.tud_connected = true;
    send_pending_mouse(&state, &mut hal);
    assert!(hal.mouse_queue_in.is_empty());
    assert_eq!(hal.host_mouse_reports, vec![(0, 1, 16, -1, 2, 0)]);
}

#[test]
fn send_kbd_failed_send_keeps_report() {
    let mut hal = Hal::new();
    hal.usb_send_ok = false;
    hal.kbd_queue_in.push([0x01, 0, 0x04, 0, 0, 0, 0, 0]);
    let mut state = Device::zeroed_for_test();
    state.cfg.tud_connected = true;
    send_pending_kbd(&state, &mut hal);
    assert_eq!(hal.kbd_queue_in.len(), 1);
}
