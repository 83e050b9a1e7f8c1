use lib::constants::PacketType;
use lib::hal::Hal;
use lib::passthrough::{capture_descriptor, PassthroughState, HIDPP_REPORT_ID_SHORT, ITF_NUM_PT_BASE, SMARTSHIFT_CID};
use lib::service::passthrough_service::{
    flush_output_report, on_device_mount, on_device_unmount, on_report_received, on_set_report,
    passthrough_task, ReportAction, ABSOLUTE_TIMEOUT_US, CAPTURE_STABILIZE_US, RECONNECT_DELAY_US,
};
use lib::structs::{Device, LED_BLINK_NONE, LED_BLINK_PT_WAIT};

fn setup() -> (PassthroughState, Device, Hal) {
    (PassthroughState::default(), Device::zeroed_for_test(), Hal::new())
}

// -- passthrough_task --

#[test]
fn task_switch_requested_toggles_output() {
    let (mut pt, mut dev, mut hal) = setup();
    dev.cfg.switch_requested = true;
    dev.cfg.active_output = 0;
    passthrough_task(&mut pt, &mut dev, &mut hal);
    assert!(!dev.cfg.switch_requested);
    assert_eq!(hal.output_switched, Some(1));
}

#[test]
fn task_config_mode_skips() {
    let (mut pt, mut dev, mut hal) = setup();
    dev.cfg.config_mode_active = true;
    dev.cfg.switch_requested = true;
    passthrough_task(&mut pt, &mut dev, &mut hal);
    assert!(!dev.cfg.switch_requested);
}

#[test]
fn task_led_pulse_when_disconnected() {
    let (mut pt, mut dev, mut hal) = setup();
    dev.cfg.tud_connected = false;
    dev.led.led_blink_mode = LED_BLINK_NONE;
    passthrough_task(&mut pt, &mut dev, &mut hal);
    assert_eq!(dev.led.led_blink_mode, LED_BLINK_PT_WAIT);
}

#[test]
fn task_led_stops_when_connected() {
    let (mut pt, mut dev, mut hal) = setup();
    dev.cfg.tud_connected = true;
    dev.led.led_blink_mode = LED_BLINK_PT_WAIT;
    passthrough_task(&mut pt, &mut dev, &mut hal);
    assert_eq!(dev.led.led_blink_mode, LED_BLINK_NONE);
}

#[test]
fn task_safety_timeout_no_vendor() {
    let (mut pt, mut dev, mut hal) = setup();
    dev.cfg.config.passthrough_enabled = 1;
    dev.cfg.tud_connected = false;
    capture_descriptor(&mut pt, 1, 0, 2, &[0x05, 0x01]);
    pt.last_capture_us = 1000;
    hal.set_time(ABSOLUTE_TIMEOUT_US + 1);

    passthrough_task(&mut pt, &mut dev, &mut hal);
    assert!(pt.gave_up, "gave_up should be set after safety timeout");
    assert!(!pt.active, "passthrough must not activate once gave_up is set");
}

#[test]
fn task_safety_timeout_inhibits_late_activate() {
    let (mut pt, mut dev, mut hal) = setup();
    dev.cfg.config.passthrough_enabled = 1;
    pt.gave_up = true;

    capture_descriptor(&mut pt, 1, 0, 0, &[0x06, 0x00, 0xFF]);
    pt.last_capture_us = 1000;
    hal.set_time(1000 + CAPTURE_STABILIZE_US + 1);

    passthrough_task(&mut pt, &mut dev, &mut hal);
    assert!(!pt.active, "late capture must not activate after gave_up");
}

#[test]
fn task_safety_timeout_skipped_when_vendor_present() {
    let (mut pt, mut dev, mut hal) = setup();
    dev.cfg.config.passthrough_enabled = 1;
    dev.cfg.tud_connected = false;
    capture_descriptor(&mut pt, 1, 0, 0, &[0x06, 0x00, 0xFF]);
    pt.last_capture_us = ABSOLUTE_TIMEOUT_US + 100;
    hal.set_time(ABSOLUTE_TIMEOUT_US + 200);

    passthrough_task(&mut pt, &mut dev, &mut hal);
    assert!(!pt.gave_up, "gave_up must not be set when vendor iface is present");
}

#[test]
fn task_activate_after_stabilize() {
    let (mut pt, mut dev, mut hal) = setup();
    dev.cfg.config.passthrough_enabled = 1;
    let desc = [0x05, 0x01];
    capture_descriptor(&mut pt, 1, 0, 0, &desc);
    pt.last_capture_us = 1000;
    let now = 1000 + CAPTURE_STABILIZE_US + 1;
    hal.set_time(now);

    passthrough_task(&mut pt, &mut dev, &mut hal);
    assert!(pt.active);
    assert_eq!(hal.device_disconnect_count, 1);
    assert_eq!(hal.device_connect_count, 0);
    assert_eq!(pt.reconnect_at_us, now + RECONNECT_DELAY_US);
}

#[test]
fn task_no_activate_when_build_config_desc_fails() {
    let (mut pt, mut dev, mut hal) = setup();
    dev.cfg.config.passthrough_enabled = 1;
    hal.pt_build_fails = true;
    let desc = [0x05, 0x01];
    capture_descriptor(&mut pt, 1, 0, 0, &desc);
    pt.last_capture_us = 1000;
    hal.set_time(1000 + CAPTURE_STABILIZE_US + 1);

    passthrough_task(&mut pt, &mut dev, &mut hal);
    assert!(!pt.active, "must not activate when the composite cannot be built");
    assert_eq!(hal.device_disconnect_count, 0, "must not disconnect");
    assert_eq!(pt.reconnect_at_us, 0, "no reconnect cycle scheduled");
}

#[test]
fn task_reconnect_timer() {
    let (mut pt, mut dev, mut hal) = setup();
    pt.reconnect_at_us = 5000;
    hal.set_time(6000);
    passthrough_task(&mut pt, &mut dev, &mut hal);
    assert_eq!(hal.device_connect_count, 1);
    assert_eq!(pt.reconnect_at_us, 0);
}

#[test]
fn flush_output_report_sends_and_clears() {
    let (mut pt, _dev, mut hal) = setup();
    pt.out_queue.pending = true;
    pt.out_queue.data[0] = 0xAA;
    pt.out_queue.len = 1;
    flush_output_report(&mut pt, &mut hal);
    assert!(!pt.out_queue.pending);
    assert_eq!(hal.host_set_report_count, 1);
}

#[test]
fn passthrough_task_does_not_send_set_report() {
    let (mut pt, mut dev, mut hal) = setup();
    pt.out_queue.pending = true;
    pt.out_queue.len = 1;
    passthrough_task(&mut pt, &mut dev, &mut hal);
    assert_eq!(hal.host_set_report_count, 0, "Core0 task must not send to host");
    assert!(pt.out_queue.pending, "out_queue stays pending for Core1 to flush");
}

// -- on_device_mount --

#[test]
fn mount_captures_descriptor() {
    let (mut pt, mut dev, mut hal) = setup();
    dev.cfg.config.passthrough_enabled = 1;
    hal.set_time(1234);
    on_device_mount(&mut pt, &dev, 1, 0, 1, &[0x05, 0x01], &hal);
    assert_eq!(pt.iface_count, 1);
    assert_eq!(pt.last_capture_us, 1234);
}

#[test]
fn mount_captures_vid_pid() {
    let (mut pt, mut dev, mut hal) = setup();
    dev.cfg.config.passthrough_enabled = 1;
    hal.host_upstream_vid_pid = (0x046D, 0xC548);
    on_device_mount(&mut pt, &dev, 1, 0, 1, &[0x05], &hal);
    assert_eq!(pt.upstream_vid, 0x046D);
    assert_eq!(pt.upstream_pid, 0xC548);
}

#[test]
fn mount_disabled_noop() {
    let (mut pt, mut dev, hal) = setup();
    dev.cfg.config.passthrough_enabled = 0;
    on_device_mount(&mut pt, &dev, 1, 0, 1, &[0x05], &hal);
    assert_eq!(pt.iface_count, 0);
}

// -- on_device_unmount --

#[test]
fn unmount_requests_disconnect_when_empty() {
    let (mut pt, _dev, _hal) = setup();
    let desc = [0x01];
    capture_descriptor(&mut pt, 1, 0, 1, &desc);
    pt.active = true;

    on_device_unmount(&mut pt, 1);
    assert!(!pt.active);
    assert!(pt.disconnect_requested, "must flag disconnect for Core0");
}

#[test]
fn unmount_partial_no_disconnect() {
    let (mut pt, _dev, _hal) = setup();
    let desc = [0x01];
    capture_descriptor(&mut pt, 1, 0, 1, &desc);
    capture_descriptor(&mut pt, 2, 0, 1, &desc);
    pt.active = true;

    on_device_unmount(&mut pt, 1);
    assert!(pt.active);
    assert!(!pt.disconnect_requested);
}

#[test]
fn task_performs_deferred_disconnect_on_core0() {
    let (mut pt, mut dev, mut hal) = setup();
    pt.disconnect_requested = true;
    hal.set_time(10000);
    passthrough_task(&mut pt, &mut dev, &mut hal);
    assert!(!pt.disconnect_requested);
    assert_eq!(hal.device_disconnect_count, 1);
    assert!(!hal.pt_config_desc_ready);
    assert_eq!(pt.reconnect_at_us, 10000 + RECONNECT_DELAY_US);
}

// -- on_set_report --

#[test]
fn set_report_queues_output() {
    let mut pt = PassthroughState::default();
    let desc = [0x01];
    capture_descriptor(&mut pt, 1, 0, 0, &desc);

    on_set_report(&mut pt, ITF_NUM_PT_BASE, 0x10, 2, &[0x01, 0x08, 0x21, 0x03]);
    assert!(pt.out_queue.pending);
    assert_eq!(pt.out_queue.report_id, 0x10);
    assert_eq!(pt.out_queue.len, 4);
}

#[test]
fn set_report_sniffs_hires_scroll() {
    let mut pt = PassthroughState::default();
    let desc = [0x01];
    capture_descriptor(&mut pt, 1, 0, 0, &desc);

    on_set_report(&mut pt, ITF_NUM_PT_BASE, HIDPP_REPORT_ID_SHORT, 2, &[0x01, 0x08, 0x21, 0x03, 0x00, 0x00]);
    assert_eq!(pt.hidpp_disc.fi_hires_scroll, 0x08);
}

#[test]
fn set_report_invalid_instance_noop() {
    let mut pt = PassthroughState::default();
    on_set_report(&mut pt, 0, 0x10, 2, &[0x01]);
    assert!(!pt.out_queue.pending);
}

// -- SmartShift double-click --

/// A HID++ key event (function 2) for the SmartShift control.
fn smartshift_event(pressed: bool) -> [u8; 7] {
    [HIDPP_REPORT_ID_SHORT, 0x01, 0x05, 0x20, 0x00, SMARTSHIFT_CID, if pressed { 0x01 } else { 0x00 }]
}

/// A diverted-buttons notification (function 0) listing SmartShift or nothing.
fn smartshift_diverted(pressed: bool) -> [u8; 7] {
    [HIDPP_REPORT_ID_SHORT, 0x01, 0x05, 0x00, 0x00, if pressed { SMARTSHIFT_CID } else { 0x00 }, 0x00]
}

fn ss_setup() -> (PassthroughState, Device, Hal) {
    let (mut pt, mut dev, hal) = setup();
    capture_descriptor(&mut pt, 1, 0, 0, &[0x06, 0x00, 0xFF]);
    pt.active = true;
    dev.cfg.tud_connected = true;
    dev.cfg.config.smartshift_double_click_ms = 350;
    (pt, dev, hal)
}

#[test]
fn report_dropped_during_reenumeration() {
    let (mut pt, mut dev, mut hal) = setup();
    capture_descriptor(&mut pt, 1, 0, 0, &[0x06, 0x00, 0xFF]);
    pt.active = true;
    dev.cfg.tud_connected = false;
    let report = [0x10, 0x01, 0x02, 0x00, 0x01, 0x00, 0x00];
    let action = on_report_received(&mut pt, &mut dev, &report, 1, 0, &mut hal);
    assert!(matches!(action, ReportAction::Handled), "report must be consumed, not forwarded");
    assert_eq!(hal.hid_sent.len(), 0, "nothing forwarded to device while re-enumerating");
}

#[test]
fn smartshift_first_press_buffers() {
    let (mut pt, mut dev, mut hal) = ss_setup();
    hal.set_time(1_000_000);
    let report = smartshift_event(true);
    let action = on_report_received(&mut pt, &mut dev, &report, 1, 0, &mut hal);
    assert!(matches!(action, ReportAction::Handled));
    assert_eq!(pt.smartshift_window_us, 1_000_000);
    assert_eq!(pt.smartshift_buf_count, 1);
    assert_eq!(hal.hid_sent.len(), 0, "press must not be forwarded immediately");
}

#[test]
fn smartshift_second_press_within_window_triggers_switch() {
    let (mut pt, mut dev, mut hal) = ss_setup();
    hal.set_time(1_000_000);
    let press = smartshift_event(true);
    let release = smartshift_event(false);
    on_report_received(&mut pt, &mut dev, &press, 1, 0, &mut hal);
    on_report_received(&mut pt, &mut dev, &release, 1, 0, &mut hal);
    hal.set_time(1_100_000);
    on_report_received(&mut pt, &mut dev, &press, 1, 0, &mut hal);
    assert!(dev.cfg.switch_requested, "Down1->Up1->Down2 within window must trigger switch");
    assert_eq!(pt.smartshift_window_us, 0, "window must clear");
    assert_eq!(pt.smartshift_buf_count, 0, "buffer must clear");
    assert_eq!(pt.smartshift_consume, 1, "release of second press must be marked for consumption");
    assert_eq!(hal.hid_sent.len(), 0, "no events forwarded on switch trigger");
}

#[test]
fn smartshift_diverted_double_click_triggers_switch() {
    let (mut pt, mut dev, mut hal) = ss_setup();
    hal.set_time(1_000_000);
    on_report_received(&mut pt, &mut dev, &smartshift_diverted(true), 1, 0, &mut hal);
    on_report_received(&mut pt, &mut dev, &smartshift_diverted(false), 1, 0, &mut hal);
    assert!(pt.smartshift_window_us > 0, "first diverted press opens the window");
    hal.set_time(1_100_000);
    on_report_received(&mut pt, &mut dev, &smartshift_diverted(true), 1, 0, &mut hal);
    assert!(dev.cfg.switch_requested, "diverted-button double-click must switch output");
    assert_eq!(pt.smartshift_window_us, 0, "window cleared");
    on_report_received(&mut pt, &mut dev, &smartshift_diverted(false), 1, 0, &mut hal);
    assert_eq!(pt.smartshift_consume, 0, "post-switch release consumed");
    assert_eq!(hal.hid_queued.len(), 0, "nothing forwarded for the double-click");
}

#[test]
fn smartshift_two_presses_without_release_do_not_switch() {
    let (mut pt, mut dev, mut hal) = ss_setup();
    hal.set_time(1_000_000);
    let press = smartshift_event(true);
    on_report_received(&mut pt, &mut dev, &press, 1, 0, &mut hal);
    hal.set_time(1_010_000);
    on_report_received(&mut pt, &mut dev, &press, 1, 0, &mut hal);
    assert!(!dev.cfg.switch_requested, "two Downs with no Up between must not switch");
    assert!(pt.smartshift_window_us > 0, "window stays armed, awaiting a real Up->Down");
    assert!(!pt.smartshift_saw_release, "no release observed");
}

#[test]
fn smartshift_dual_shape_single_click_does_not_switch() {
    let (mut pt, mut dev, mut hal) = ss_setup();
    hal.set_time(1_000_000);
    on_report_received(&mut pt, &mut dev, &smartshift_diverted(true), 1, 0, &mut hal);
    on_report_received(&mut pt, &mut dev, &smartshift_event(true), 1, 0, &mut hal);
    assert!(!dev.cfg.switch_requested, "dual-shape single click must not switch");
}

#[test]
fn smartshift_release_after_switch_consumed() {
    let (mut pt, mut dev, mut hal) = ss_setup();
    pt.smartshift_consume = 1;
    let release = smartshift_event(false);
    let action = on_report_received(&mut pt, &mut dev, &release, 1, 0, &mut hal);
    assert!(matches!(action, ReportAction::Handled));
    assert_eq!(pt.smartshift_consume, 0);
    assert_eq!(hal.hid_sent.len(), 0, "release must be silently dropped");
}

#[test]
fn smartshift_window_expiry_flushes_buffer() {
    let (mut pt, mut dev, mut hal) = ss_setup();
    hal.set_time(1_000_000);
    let press = smartshift_event(true);
    on_report_received(&mut pt, &mut dev, &press, 1, 0, &mut hal);
    hal.set_time(1_400_000);
    passthrough_task(&mut pt, &mut dev, &mut hal);
    assert_eq!(pt.smartshift_window_us, 0);
    assert_eq!(pt.smartshift_buf_count, 0);
    assert_eq!(hal.hid_queued.len(), 1, "buffered press must be flushed");
    assert_eq!(hal.hid_queued[0].2, press.to_vec());
}

#[test]
fn smartshift_third_press_starts_new_window() {
    let (mut pt, mut dev, mut hal) = ss_setup();
    hal.set_time(1_000_000);
    let press = smartshift_event(true);
    on_report_received(&mut pt, &mut dev, &press, 1, 0, &mut hal);
    hal.set_time(1_500_000);
    on_report_received(&mut pt, &mut dev, &press, 1, 0, &mut hal);
    assert_eq!(pt.smartshift_window_us, 1_500_000, "new window opened at third press");
    assert_eq!(pt.smartshift_buf_count, 1, "third press buffered as new Down1");
    assert_eq!(hal.hid_queued.len(), 1, "first press flushed before new window");
}

#[test]
fn smartshift_non_event_during_window_buffered() {
    let (mut pt, mut dev, mut hal) = ss_setup();
    hal.set_time(1_000_000);
    let press = smartshift_event(true);
    on_report_received(&mut pt, &mut dev, &press, 1, 0, &mut hal);
    let scroll = [HIDPP_REPORT_ID_SHORT, 0x01, 0x06, 0x00, 0x00, 0x05, 0x00];
    on_report_received(&mut pt, &mut dev, &scroll, 1, 0, &mut hal);
    assert_eq!(pt.smartshift_buf_count, 2, "scroll event buffered alongside press");
    assert_eq!(hal.hid_sent.len(), 0);
}

#[test]
fn active_forward_routes_through_queue_not_device_stack() {
    let (mut pt, mut dev, mut hal) = ss_setup();
    dev.cfg.tud_connected = true;
    let report = [HIDPP_REPORT_ID_SHORT, 0x01, 0x06, 0x00, 0x00, 0x05, 0x00];
    let action = on_report_received(&mut pt, &mut dev, &report, 1, 0, &mut hal);
    assert!(matches!(action, ReportAction::Handled));
    assert_eq!(hal.hid_sent.len(), 0, "must NOT touch the device stack from Core1");
    assert_eq!(hal.hid_queued.len(), 1, "must route via the cross-core queue");
}

#[test]
fn inactive_input_routes_converted_mouse_to_peer() {
    let (mut pt, mut dev, mut hal) = ss_setup();
    pt.hidpp_disc.fi_reprog_controls = 0x05;
    dev.cfg.tud_connected = true;
    dev.cfg.board_role = 0;
    dev.cfg.active_output = 1;
    let report = [HIDPP_REPORT_ID_SHORT, 0x01, 0x05, 0x00, 0x00, 0x50, 0x00];
    let action = on_report_received(&mut pt, &mut dev, &report, 1, 0, &mut hal);
    assert!(matches!(action, ReportAction::Handled));
    assert_eq!(hal.mouse_reports.len(), 0, "must not push locally when inactive");
    let pkts = &hal.sent_packets;
    assert_eq!(pkts.len(), 1, "converted input must be sent to the peer board");
    assert_eq!(pkts[0].1, PacketType::MouseReport.to_u8(), "routed as a mouse report packet");
    assert_eq!(pkts[0].0[0], 0x01, "Left button bit set in the routed report");
}

// -- further cases --

#[test]
fn inactive_wheel_routes_wheel_report_to_peer() {
    let (mut pt, mut dev, mut hal) = ss_setup();
    pt.hidpp_disc.fi_hires_scroll = 0x07;
    dev.cfg.active_output = 1;
    let report = [HIDPP_REPORT_ID_SHORT, 0x01, 0x07, 0x00, 0x00, 0x00, 0x03];
    on_report_received(&mut pt, &mut dev, &report, 1, 0, &mut hal);
    assert_eq!(hal.sent_packets.len(), 1);
    assert_eq!(hal.sent_packets[0].0, vec![0, 0, 0, 0, 0, 3, 0, 1]);
}

#[test]
fn non_vendor_report_falls_through_when_inactive() {
    let (mut pt, mut dev, mut hal) = setup();
    capture_descriptor(&mut pt, 1, 0, 2, &[0x05, 0x01]);
    pt.active = true;
    dev.cfg.tud_connected = true;
    dev.cfg.active_output = 1;
    let action = on_report_received(&mut pt, &mut dev, &[0x01, 0x02, 0x03], 1, 0, &mut hal);
    assert!(matches!(action, ReportAction::Fallthrough));
    assert_eq!(hal.hid_queued.len(), 0);
    assert_eq!(hal.report_rearms, vec![(1, 0)]);
}

#[test]
fn unknown_interface_falls_through() {
    let (mut pt, mut dev, mut hal) = ss_setup();
    let action = on_report_received(&mut pt, &mut dev, &[0x01, 0x02], 9, 9, &mut hal);
    assert!(matches!(action, ReportAction::Fallthrough));
}

#[test]
fn set_report_too_long_ignored() {
    let mut pt = PassthroughState::default();
    capture_descriptor(&mut pt, 1, 0, 0, &[0x01]);
    on_set_report(&mut pt, ITF_NUM_PT_BASE, 0x11, 2, &[0u8; 65]);
    assert!(!pt.out_queue.pending);
}

#[test]
fn flush_sends_queued_bytes_to_owner() {
    let mut pt = PassthroughState::default();
    capture_descriptor(&mut pt, 4, 1, 0, &[0x01]);
    on_set_report(&mut pt, ITF_NUM_PT_BASE, 0x10, 2, &[0x01, 0x02, 0x03]);
    let mut hal = Hal::new();
    flush_output_report(&mut pt, &mut hal);
    assert_eq!(hal.host_set_reports.len(), 1);
    assert_eq!(hal.host_set_reports[0], (4, 1, 0x10, 2, vec![0x01, 0x02, 0x03]));
}

#[test]
fn single_click_reaches_host_in_order_after_window() {
    let (mut pt, mut dev, mut hal) = ss_setup();
    hal.set_time(1_000_000);
    let press = smartshift_event(true);
    let release = smartshift_event(false);
    on_report_received(&mut pt, &mut dev, &press, 1, 0, &mut hal);
    hal.set_time(1_050_000);
    on_report_received(&mut pt, &mut dev, &release, 1, 0, &mut hal);
    assert_eq!(hal.hid_queued.len(), 0);
    hal.set_time(1_400_000);
    passthrough_task(&mut pt, &mut dev, &mut hal);
    assert_eq!(hal.hid_queued, vec![(ITF_NUM_PT_BASE, 0, press.to_vec()), (ITF_NUM_PT_BASE, 0, release.to_vec())]);
    assert!(!dev.cfg.switch_requested);
    assert_eq!(pt.smartshift_window_us, 0);
}

#[test]
fn unmount_forgets_only_that_device() {
    let mut pt = PassthroughState::default();
    capture_descriptor(&mut pt, 1, 0, 0, &[0x01]);
    capture_descriptor(&mut pt, 2, 0, 1, &[0x02]);
    capture_descriptor(&mut pt, 1, 1, 2, &[0x03]);
    on_device_unmount(&mut pt, 1);
    assert_eq!(pt.iface_count, 1);
    assert_eq!(pt.ifaces[0].dev_addr, 2);
    assert_eq!(pt.ifaces[0].desc, vec![0x02]);
}

#[test]
fn report_descriptor_by_device_instance() {
    let mut pt = PassthroughState::default();
    capture_descriptor(&mut pt, 1, 0, 0, &[0x06, 0x00, 0xFF]);
    capture_descriptor(&mut pt, 1, 1, 2, &[0x05, 0x01]);
    assert_eq!(lib::passthrough::get_report_desc(&pt, ITF_NUM_PT_BASE + 1), Some(&[0x05u8, 0x01][..]));
    assert_eq!(lib::passthrough::get_report_desc(&pt, ITF_NUM_PT_BASE + 2), None);
    assert_eq!(lib::passthrough::get_report_desc(&pt, 0), None);
}

#[test]
fn mount_asks_ids_of_the_mounted_device() {
    let (mut pt, mut dev, mut hal) = setup();
    dev.cfg.config.passthrough_enabled = 1;
    hal.host_device_ids = vec![(2, 0x1111, 0x2222), (3, 0x046D, 0xC548)];
    on_device_mount(&mut pt, &dev, 3, 0, 1, &[0x05], &hal);
    assert_eq!((pt.upstream_vid, pt.upstream_pid), (0x046D, 0xC548));
}

#[test]
fn dropped_report_rearms_its_own_endpoint() {
    let (mut pt, mut dev, mut hal) = setup();
    capture_descriptor(&mut pt, 4, 2, 0, &[0x06, 0x00, 0xFF]);
    pt.active = true;
    on_report_received(&mut pt, &mut dev, &[0x10, 1, 2, 0, 1, 0, 0], 4, 2, &mut hal);
    assert_eq!(hal.report_rearms, vec![(4, 2)]);
}
