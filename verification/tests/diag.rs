use lib::diag::{composite_items, hidpp_log_step, CompositeItem, DebugStream, HidppLogLine};
use lib::passthrough::HidppDisc;

fn disc() -> HidppDisc {
    HidppDisc { fi_reprog_controls: 0x05, fi_hires_scroll: 0x07, fi_thumbwheel: 0x08, button_state: 0 }
}

#[test]
fn wheel_events_are_summed_until_the_interval() {
    let mut s = DebugStream::new();
    let d = disc();
    let up = [0x10, 1, 0x07, 0x00, 0, 0x00, 0x03];
    let down = [0x10, 1, 0x07, 0x00, 0, 0xFF, 0xFF];
    assert_eq!(hidpp_log_step(&mut s, &d, &up, 1_000), HidppLogLine::Nothing);
    assert_eq!(hidpp_log_step(&mut s, &d, &down, 200_000), HidppLogLine::Nothing);
    assert_eq!(hidpp_log_step(&mut s, &d, &up, 301_000), HidppLogLine::Scroll { n: 3, sum: 5 });
    assert_eq!(s.wheel_n, 0);
    assert_eq!(s.wheel_last_us, 301_000);
}

#[test]
fn thumb_wheel_has_its_own_stream() {
    let mut s = DebugStream::new();
    let d = disc();
    let t = [0x10, 1, 0x08, 0x00, 0, 0x00, 0x02];
    assert_eq!(hidpp_log_step(&mut s, &d, &t, 5), HidppLogLine::Nothing);
    assert_eq!(s.thumb_n, 1);
    assert_eq!(s.wheel_n, 0);
}

#[test]
fn key_events_are_logged_and_raw_moves_are_not() {
    let mut s = DebugStream::new();
    let d = disc();
    let key = [0x10, 1, 0x05, 0x00, 0, 0xC3, 0x00];
    assert_eq!(hidpp_log_step(&mut s, &d, &key, 5), HidppLogLine::Key { fi: 5, func: 0, control: 0xC3, action: 0 });
    let raw_xy = [0x11, 1, 0x05, 0x10, 0, 1, 2];
    assert_eq!(hidpp_log_step(&mut s, &d, &raw_xy, 5), HidppLogLine::Nothing);
    assert_eq!(hidpp_log_step(&mut s, &d, &[0x10, 1, 2], 5), HidppLogLine::Nothing);
}

#[test]
fn composite_descriptor_entries() {
    let desc = [
        9, 2, 32, 0, 1, 1, 0, 0x80, 50, // configuration, 32 bytes, 1 interface, 100 mA
        9, 4, 0, 0, 1, 3, 1, 2, 0, // interface 0, HID boot mouse, 1 endpoint
        7, 5, 0x81, 3, 8, 0, 10, // endpoint 0x81 interrupt, 8 bytes, interval 10
        2, 0, 0, 0, 0, 0, 0,
    ];
    assert_eq!(composite_items(&desc), vec![
        CompositeItem::Config { ifaces: 1, milliamps: 100 },
        CompositeItem::Interface { number: 0, class: 3, subclass: 1, protocol: 2, endpoints: 1 },
        CompositeItem::Endpoint { address: 0x81, kind: 3, max_packet: 8, interval: 10 },
    ]);
}

#[test]
fn short_composite_descriptor_gives_nothing() {
    assert!(composite_items(&[9, 2, 8, 0]).is_empty());
    assert!(composite_items(&[]).is_empty());
}
