//! Messages from the peer board: its keyboard and mouse reports, output
//! selection, border synchronization and keyboard LED state.
use vstd::prelude::*;
use crate::actions::{border_bytes, border_position, border_to_bytes, get_border_position, BorderUpdate};
use crate::bytes::{i32_from_le_bytes, u32_from_le};
use crate::constants::{packet_type_code, PacketType};
use crate::hal::{ConfigStore, Hal, HalView, OutputControl, PeerLink, ReportQueue, Timer};
use crate::keyboard::{combine_kbd_states, combined_report, released};
use crate::msg_handlers::{handle_keyboard_uart, handle_mouse_uart};
use crate::mouse::i16_from_le;
use crate::service::backend::host_link::release_all_keys;
use crate::service::router::ReportRouter;
use crate::structs::{kbd_report_bytes_spec, kbd_report_of, kbd_report_to_bytes, BorderSize, Device, DeviceConfig, DeviceHid, Output};

verus! {

/// A keyboard report from the peer: it becomes the remote keyboard state,
/// the combined report is routed, and activity is recorded either way.
pub open spec fn kbd_from_peer_effect(s: Device, h: HalView, data: [u8; 8]) -> (Device, HalView) {
    let s1 = Device { hid: DeviceHid { remote_kbd_state: kbd_report_of(data), ..s.hid }, ..s };
    let report = kbd_report_bytes_spec(combined_report(s1.hid));
    (
        s1.touched(h.time_us),
        if s.is_active_output_spec() {
            h.push_kbd_report(report)
        } else {
            h.send_packet(report@, packet_type_code(PacketType::KeyboardReport))
        },
    )
}

/// Take the peer's keyboard report as the remote keyboard state and route
/// the combined report. Activity is recorded whichever way it goes.
pub fn handle_kbd_from_peer(state: &mut Device, hal: &mut Hal, data: &[u8; 8])
    ensures
        (*final(state), final(hal)@) == kbd_from_peer_effect(*old(state), old(hal)@, *data),
{
    handle_keyboard_uart(data, state);
    let combined = combine_kbd_states(state);
    let bytes = kbd_report_to_bytes(&combined);
    hal.route_kbd(state, bytes);
    if !state.is_active_output() {
        hal.touch_activity(state);
    }
}

/// A mouse report from the peer: queued for the host, its position and
/// buttons taken, activity recorded.
pub open spec fn mouse_from_peer_effect(s: Device, h: HalView, data: [u8; 8]) -> (Device, HalView) {
    (
        (Device {
            hid: DeviceHid {
                mouse_buttons: data[0] as i16,
                pointer_x: i16_from_le(data[1], data[2]),
                pointer_y: i16_from_le(data[3], data[4]),
                ..s.hid
            },
            ..s
        }).touched(h.time_us),
        h.push_mouse_report(data),
    )
}

/// Queue the peer's mouse report for the host, take its position and
/// buttons, and record activity.
pub fn handle_mouse_from_peer(state: &mut Device, hal: &mut Hal, data: &[u8; 8])
    ensures
        (*final(state), final(hal)@) == mouse_from_peer_effect(*old(state), old(hal)@, *data),
{
    hal.push_mouse_report(*data);
    handle_mouse_uart(data, state);
    let role = state.cfg.board_role as usize;
    if role < 2 {
        state.cfg.last_activity[role] = hal.now_us_64();
    }
    assert(state.cfg.last_activity =~= mouse_from_peer_effect(*old(state), old(hal)@, *data).0.cfg.last_activity);
}

/// The output the peer selected becomes active; every key is released if a
/// host is connected; the LEDs are brought in line.
pub open spec fn output_select_effect(s: Device, h: HalView, output: u8) -> (Device, HalView) {
    let s1 = Device { cfg: DeviceConfig { active_output: output, ..s.cfg }, ..s };
    if s.cfg.tud_connected {
        (released(s1), h.push_kbd_report([0u8, 0, 0, 0, 0, 0, 0, 0]).sync_leds())
    } else {
        (s1, h.sync_leds())
    }
}

/// Make the output the peer selected active.
#[verifier::rlimit(60)]
pub fn handle_output_select(state: &mut Device, hal: &mut Hal, output: u8)
    ensures
        (*final(state), final(hal)@) == output_select_effect(*old(state), old(hal)@, output),
{
    state.cfg.active_output = output;
    if state.cfg.tud_connected {
        release_all_keys(state, hal);
    }
    hal.sync_leds();
}

/// This state with the border that the pointer position sets.
pub open spec fn border_from_pointer(s: Device) -> Device {
    let idx = s.cfg.active_output as int;
    let o = s.cfg.config.output[idx];
    match border_position(s.hid.pointer_y) {
        BorderUpdate::Top(v) => s.with_output(idx, Output { border: BorderSize { top: v, ..o.border }, ..o }),
        BorderUpdate::Bottom(v) => s.with_output(idx, Output { border: BorderSize { bottom: v, ..o.border }, ..o }),
    }
}

/// This state with the active output's borders taken from a peer payload.
pub open spec fn border_from_bytes(s: Device, d: [u8; 8]) -> Device {
    let idx = s.cfg.active_output as int;
    let o = s.cfg.config.output[idx];
    s.with_output(
        idx,
        Output {
            border: BorderSize {
                top: u32_from_le([d[0], d[1], d[2], d[3]]) as i32,
                bottom: u32_from_le([d[4], d[5], d[6], d[7]]) as i32,
            },
            ..o
        },
    )
}

pub(crate) fn set_border_from_pointer(state: &mut Device)
    requires
        old(state).cfg.active_output < 2,
    ensures
        *final(state) == border_from_pointer(*old(state)),
{
    let idx = state.cfg.active_output as usize;
    match get_border_position(state.hid.pointer_y) {
        BorderUpdate::Top(v) => state.cfg.config.output[idx].border.top = v,
        BorderUpdate::Bottom(v) => state.cfg.config.output[idx].border.bottom = v,
    }
    assert(state.cfg.config.output =~= border_from_pointer(*old(state)).cfg.config.output);
}

fn set_border_from_bytes(state: &mut Device, data: &[u8; 8])
    requires
        old(state).cfg.active_output < 2,
    ensures
        *final(state) == border_from_bytes(*old(state), *data),
{
    let idx = state.cfg.active_output as usize;
    let top = i32_from_le_bytes([data[0], data[1], data[2], data[3]]);
    let bottom = i32_from_le_bytes([data[4], data[5], data[6], data[7]]);
    state.cfg.config.output[idx].border.top = top;
    state.cfg.config.output[idx].border.bottom = bottom;
    assert(state.cfg.config.output =~= border_from_bytes(*old(state), *data).cfg.config.output);
}

/// Border synchronization: the board that drives the active output sets a
/// border from the pointer and sends both; the other takes the peer's.
/// Either way the configuration is saved. An out-of-range output is ignored.
pub open spec fn sync_borders_effect(s: Device, h: HalView, remote: Option<[u8; 8]>) -> (Device, HalView) {
    let idx = s.cfg.active_output as int;
    if idx >= 2 {
        (s, h)
    } else if s.is_active_output_spec() {
        let s1 = border_from_pointer(s);
        let b = s1.cfg.config.output[idx].border;
        (s1, h.send_packet(border_bytes(b.top, b.bottom)@, packet_type_code(PacketType::SyncBorders)).save())
    } else {
        (match remote {
            Some(d) => border_from_bytes(s, d),
            None => s,
        }, h.save())
    }
}

/// Synchronize the active output's borders with the peer.
#[verifier::rlimit(60)]
pub fn handle_sync_borders(state: &mut Device, hal: &mut Hal, remote_data: Option<&[u8; 8]>)
    ensures
        (*final(state), final(hal)@) == sync_borders_effect(*old(state), old(hal)@, match remote_data {
            Some(d) => Some(*d),
            None => None,
        }),
{
    let idx = state.cfg.active_output as usize;
    if idx >= 2 {
        return;
    }
    if state.is_active_output() {
        set_border_from_pointer(state);
        let top = state.cfg.config.output[idx].border.top;
        let bottom = state.cfg.config.output[idx].border.bottom;
        let bytes = border_to_bytes(top, bottom);
        hal.send_packet(bytes.as_slice(), PacketType::SyncBorders.to_u8());
    } else if let Some(data) = remote_data {
        set_border_from_bytes(state, data);
    }
    hal.save();
}

/// The LED state the other output's host asked for is recorded; the LEDs
/// are brought in line when that output is active and a keyboard is here.
pub open spec fn set_report_effect(s: Device, h: HalView, led_value: u8) -> (Device, HalView) {
    (
        if s.cfg.board_role < 2 { s.with_keyboard_leds(1 - s.cfg.board_role, led_value) } else { s },
        if s.cfg.keyboard_connected && !s.is_active_output_spec() { h.sync_leds() } else { h },
    )
}

/// Record the keyboard LED state the other output's host asked for.
#[verifier::rlimit(60)]
pub fn handle_set_report(state: &mut Device, hal: &mut Hal, led_value: u8)
    ensures
        (*final(state), final(hal)@) == set_report_effect(*old(state), old(hal)@, led_value),
{
    let role = state.cfg.board_role as usize;
    if role < 2 {
        let other = 1 - role;
        state.cfg.keyboard_leds[other] = led_value;
        assert(state.cfg.keyboard_leds =~= old(state).with_keyboard_leds(1 - old(state).cfg.board_role, led_value).cfg.keyboard_leds);
    }
    if state.cfg.keyboard_connected && !state.is_active_output() {
        hal.sync_leds();
    }
}

} // verus!
