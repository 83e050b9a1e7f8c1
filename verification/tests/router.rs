use lib::hal::Hal;
use lib::service::router::ReportRouter;
use lib::structs::Device;

#[test]
fn route_mouse_active_output() {
    let mut hal = Hal::new();
    hal.set_time(1_000_000);
    let mut state = Device::zeroed();
    state.cfg.board_role = 0;
    state.cfg.active_output = 0;
    let report = [1u8, 10, 0, 20, 0, 0, 0, 0];
    hal.route_mouse(&mut state, report);
    assert_eq!(hal.mouse_reports.len(), 1);
    assert_eq!(state.cfg.last_activity[0], 1_000_000);
    assert!(hal.sent_packets.is_empty());
}

#[test]
fn route_mouse_inactive_output() {
    let mut hal = Hal::new();
    hal.set_time(2_000_000);
    let mut state = Device::zeroed();
    state.cfg.board_role = 0;
    state.cfg.active_output = 1;
    let report = [1u8, 10, 0, 20, 0, 0, 0, 0];
    hal.route_mouse(&mut state, report);
    assert!(hal.mouse_reports.is_empty());
    assert_eq!(hal.sent_packets.len(), 1);
    assert_eq!(state.cfg.last_activity[0], 0);
}

#[test]
fn route_kbd_active_output() {
    let mut hal = Hal::new();
    hal.set_time(3_000_000);
    let mut state = Device::zeroed();
    state.cfg.board_role = 0;
    state.cfg.active_output = 0;
    let report = [0x01u8, 0, 0x04, 0, 0, 0, 0, 0];
    hal.route_kbd(&mut state, report);
    assert_eq!(hal.kbd_reports.len(), 1);
    assert_eq!(state.cfg.last_activity[0], 3_000_000);
    assert!(hal.sent_packets.is_empty());
}

#[test]
fn touch_activity_updates_timestamp() {
    let mut hal = Hal::new();
    hal.set_time(5_000_000);
    let mut state = Device::zeroed();
    state.cfg.board_role = 1;
    hal.touch_activity(&mut state);
    assert_eq!(state.cfg.last_activity[1], 5_000_000);
    assert_eq!(state.cfg.last_activity[0], 0);
}

#[test]
fn route_consumer_inactive_goes_to_peer() {
    let mut hal = Hal::new();
    let mut state = Device::zeroed();
    state.cfg.board_role = 0;
    state.cfg.active_output = 1;
    hal.route_consumer(&mut state, [0xE9, 0, 0, 0]);
    assert!(hal.cc_packets.is_empty());
    assert_eq!(hal.sent_packets, vec![(vec![0xE9, 0, 0, 0], 14)]);
}

#[test]
fn route_system_active_goes_to_host() {
    let mut hal = Hal::new();
    let mut state = Device::zeroed();
    hal.route_system(&mut state, [1, 0]);
    assert_eq!(hal.system_packets, vec![[1, 0]]);
}
