//! Mouse input: pointer movement, the report for the host, and what happens
//! when the pointer crosses a screen edge.
use vstd::prelude::*;
use crate::constants::{packet_type_code, PacketType, ABSOLUTE, MAX_SCREEN_COORD, MIN_SCREEN_COORD, OS_MACOS, OS_WINDOWS, RELATIVE};
use crate::hal::{Hal, HalView, OutputControl, PeerLink, ReportQueue};
use crate::mouse::{
    create_mouse_report, decide_screen_switch, i16_le_bytes, le16_hi, le16_lo, mouse_report_bytes_spec,
    mouse_report_spec, mouse_report_to_bytes, scale_y_between_margins, scale_y_margins_spec, screen_switch_decision,
    update_mouse_position, updated_position, MouseValues, ScreenSwitchAction, SwitchContext, SwitchDirection,
};
use crate::service::router::ReportRouter;
use crate::structs::{Device, DeviceConfig, DeviceHid, Output};

verus! {

/// Horizontal step of each relative nudge of a macOS desktop switch.
pub const MACOS_SWITCH_MOVE_X: i16 = 10;
/// Number of relative nudges of a macOS desktop switch.
pub const MACOS_SWITCH_MOVE_COUNT: usize = 5;

/// A report sent without recording activity: to the host when this board
/// drives the active output, to the peer otherwise.
pub open spec fn raw_route(s: Device, h: HalView, r: [u8; 8]) -> HalView {
    if s.is_active_output_spec() {
        h.push_mouse_report(r)
    } else {
        h.send_packet(r@, packet_type_code(PacketType::MouseReport))
    }
}

/// Route a mouse report without recording activity (switch animations).
pub fn output_report_raw(hal: &mut Hal, state: &Device, report: &[u8; 8])
    ensures
        final(hal)@ == raw_route(*state, old(hal)@, *report),
{
    if state.is_active_output() {
        hal.push_mouse_report(*report);
    } else {
        hal.send_packet(report, PacketType::MouseReport.to_u8());
    }
}

/// An absolute report placing the pointer at (x, y) with no button.
pub open spec fn park_report(x: i16, y: i16) -> [u8; 8] {
    [0u8, le16_lo(x), le16_hi(x), le16_lo(y), le16_hi(y), 0, 0, 0]
}

/// Where the pointer is parked on the screen being left.
pub open spec fn park_y(s: Device, idx: int) -> i16 {
    let p = s.cfg.config.output[idx].mouse_park_pos;
    if p == 0 { MIN_SCREEN_COORD } else if p == 1 { MAX_SCREEN_COORD } else { s.hid.pointer_y }
}

/// Switching to the other computer: park the pointer off screen here, make
/// the other output active, enter it at the opposite edge, and carry the
/// height over between the two screens' borders.
pub open spec fn switch_to_peer_effect(s: Device, h: HalView, output_number: u32, output_to: i32, direction: i32) -> (Device, HalView) {
    let idx = s.cfg.active_output as int;
    if idx >= 2 {
        (s, h)
    } else {
        let h1 = raw_route(s, h, park_report(MAX_SCREEN_COORD, park_y(s, idx))).switch_output(output_to as u8);
        let x = if direction == 1 { MAX_SCREEN_COORD } else { MIN_SCREEN_COORD };
        let y = if output_number < 2 {
            let from = s.cfg.config.output[output_number as int].border;
            let to = s.cfg.config.output[1 - output_number].border;
            scale_y_margins_spec(s.hid.pointer_y, (from.top, from.bottom), (to.top, to.bottom))
        } else {
            s.hid.pointer_y
        };
        (Device { hid: DeviceHid { pointer_x: x, pointer_y: y, ..s.hid }, ..s }, h1)
    }
}

/// Switch the active output to the other board, parking the pointer.
pub fn switch_to_peer(state: &mut Device, hal: &mut Hal, output_number: u32, output_to: i32, direction: i32)
    ensures
        (*final(state), final(hal)@) == switch_to_peer_effect(*old(state), old(hal)@, output_number, output_to, direction),
{
    let output_idx = state.cfg.active_output as usize;
    if output_idx >= 2 {
        return;
    }
    let mouse_park_pos = state.cfg.config.output[output_idx].mouse_park_pos;
    let mouse_y: i16 = if mouse_park_pos == 0 {
        MIN_SCREEN_COORD
    } else if mouse_park_pos == 1 {
        MAX_SCREEN_COORD
    } else {
        state.hid.pointer_y
    };
    let (x0, x1) = i16_le_bytes(MAX_SCREEN_COORD);
    let (y0, y1) = i16_le_bytes(mouse_y);
    let hidden = [0u8, x0, x1, y0, y1, 0, 0, 0];
    assert(hidden =~= park_report(MAX_SCREEN_COORD, mouse_y));
    output_report_raw(hal, state, &hidden);
    hal.switch_output(output_to as u8);
    state.hid.pointer_x = if direction == 1 { MAX_SCREEN_COORD } else { MIN_SCREEN_COORD };
    let other = 1u32.wrapping_sub(output_number);
    if output_number < 2 && other < 2 {
        let from = state.cfg.config.output[output_number as usize].border;
        let to = state.cfg.config.output[other as usize].border;
        state.hid.pointer_y = scale_y_between_margins(state.hid.pointer_y, (from.top, from.bottom), (to.top, to.bottom));
    }
}

/// The absolute report pinning the pointer to an edge at mid-height, with
/// the buttons held.
pub open spec fn macos_edge_report(s: Device, left: bool) -> [u8; 8] {
    let x = if left { MIN_SCREEN_COORD } else { MAX_SCREEN_COORD };
    let y: i16 = (MAX_SCREEN_COORD / 2) as i16;
    [s.hid.mouse_buttons as u8, le16_lo(x), le16_hi(x), le16_lo(y), le16_hi(y), 0, 0, ABSOLUTE]
}

/// A relative nudge of a macOS desktop switch, never with buttons held.
pub open spec fn macos_nudge_report(left: bool) -> [u8; 8] {
    let dx: i16 = if left { (-MACOS_SWITCH_MOVE_X) as i16 } else { MACOS_SWITCH_MOVE_X };
    [0u8, le16_lo(dx), le16_hi(dx), 0, 0, 0, 0, RELATIVE]
}

/// A report sent `n` times without recording activity.
pub open spec fn raw_route_n(s: Device, h: HalView, r: [u8; 8], n: nat) -> HalView
    decreases n,
{
    if n == 0 { h } else { raw_route(s, raw_route_n(s, h, r, (n - 1) as nat), r) }
}

/// A macOS desktop switch: the pointer pinned to the edge, then nudged.
pub open spec fn macos_switch_effect(s: Device, h: HalView, direction: i32) -> HalView {
    let left = direction == 1;
    raw_route_n(s, raw_route(s, h, macos_edge_report(s, left)), macos_nudge_report(left), 5)
}

fn switch_desktop_macos(state: &Device, hal: &mut Hal, direction: i32)
    ensures
        final(hal)@ == macos_switch_effect(*state, old(hal)@, direction),
{
    let left = direction == 1;
    let edge_x: i16 = if left { MIN_SCREEN_COORD } else { MAX_SCREEN_COORD };
    let (e0, e1) = i16_le_bytes(edge_x);
    let (m0, m1) = i16_le_bytes(MAX_SCREEN_COORD / 2);
    let edge = [state.hid.mouse_buttons as u8, e0, e1, m0, m1, 0, 0, ABSOLUTE];
    assert(edge =~= macos_edge_report(*state, left));
    output_report_raw(hal, state, &edge);
    let move_x: i16 = if left { -MACOS_SWITCH_MOVE_X } else { MACOS_SWITCH_MOVE_X };
    let (r0, r1) = i16_le_bytes(move_x);
    let rel = [0u8, r0, r1, 0, 0, 0, 0, RELATIVE];
    assert(rel =~= macos_nudge_report(left));
    let ghost start = hal@;
    let mut k: usize = 0;
    while k < MACOS_SWITCH_MOVE_COUNT
        invariant
            k <= MACOS_SWITCH_MOVE_COUNT,
            hal@ == raw_route_n(*state, start, rel, k as nat),
        decreases MACOS_SWITCH_MOVE_COUNT - k,
    {
        output_report_raw(hal, state, &rel);
        k = k + 1;
    }
}

/// A virtual desktop switch: macOS gets the edge-and-nudge sequence,
/// Windows switches to relative reports beyond the first desktop, and the
/// pointer enters at the opposite edge.
pub open spec fn virtual_desktop_effect(s: Device, h: HalView, os: u8, new_index: i32, direction: i32) -> (Device, HalView) {
    let h1 = if os == OS_MACOS { macos_switch_effect(s, h, direction) } else { h };
    let s1 = if os == OS_WINDOWS { Device { cfg: DeviceConfig { relative_mouse: new_index > 1, ..s.cfg }, ..s } } else { s };
    (Device { hid: DeviceHid { pointer_x: if direction == 2 { MIN_SCREEN_COORD } else { MAX_SCREEN_COORD }, ..s1.hid }, ..s1 }, h1)
}

fn switch_virtual_desktop(state: &mut Device, hal: &mut Hal, os: u8, new_index: i32, direction: i32)
    ensures
        (*final(state), final(hal)@) == virtual_desktop_effect(*old(state), old(hal)@, os, new_index, direction),
{
    if os == OS_MACOS {
        switch_desktop_macos(state, hal, direction);
    } else if os == OS_WINDOWS {
        state.cfg.relative_mouse = new_index > 1;
    }
    state.hid.pointer_x = if direction == 2 { MIN_SCREEN_COORD } else { MAX_SCREEN_COORD };
}

/// The switch context of the active output.
pub open spec fn switch_context(s: Device, idx: int) -> SwitchContext {
    let o = s.cfg.config.output[idx];
    SwitchContext {
        switch_lock: s.cfg.switch_lock,
        gaming_mode: s.cfg.gaming_mode,
        mouse_buttons: s.hid.mouse_buttons,
        screen_pos: o.pos,
        screen_index: o.screen_index,
        screen_count: o.screen_count,
    }
}

/// What a crossing of a screen edge does.
pub open spec fn screen_switch_effect(s: Device, h: HalView, direction: SwitchDirection) -> (Device, HalView) {
    let idx = s.cfg.active_output as int;
    if idx >= 2 {
        (s, h)
    } else {
        let o = s.cfg.config.output[idx];
        let d: i32 = if direction == SwitchDirection::Left { 1 } else { 2 };
        match screen_switch_decision(direction, switch_context(s, idx)) {
            ScreenSwitchAction::Nothing => (s, h),
            ScreenSwitchAction::SwitchToOtherPc => switch_to_peer_effect(s, h, o.number, (1 - s.cfg.active_output) as i32, d),
            ScreenSwitchAction::SwitchVirtualDesktop { new_index } => {
                let (s1, h1) = virtual_desktop_effect(s, h, o.os, new_index as i32, d);
                (s1.with_output(idx, Output { screen_index: new_index, ..s1.cfg.config.output[idx] }), h1)
            },
        }
    }
}

/// Act on a crossing of a screen edge.
#[verifier::rlimit(60)]
pub fn do_screen_switch(state: &mut Device, hal: &mut Hal, direction: SwitchDirection)
    ensures
        (*final(state), final(hal)@) == screen_switch_effect(*old(state), old(hal)@, direction),
{
    let output_idx = state.cfg.active_output as usize;
    if output_idx >= 2 {
        return;
    }
    let output = state.cfg.config.output[output_idx];
    let ctx = SwitchContext {
        switch_lock: state.cfg.switch_lock,
        gaming_mode: state.cfg.gaming_mode,
        mouse_buttons: state.hid.mouse_buttons,
        screen_pos: output.pos,
        screen_index: output.screen_index,
        screen_count: output.screen_count,
    };
    match decide_screen_switch(direction, &ctx) {
        ScreenSwitchAction::Nothing => {},
        ScreenSwitchAction::SwitchToOtherPc => {
            let dir_int: i32 = match direction {
                SwitchDirection::Left => 1,
                SwitchDirection::Right => 2,
                SwitchDirection::NoEdge => {
                    return;
                },
            };
            let to = (1 - state.cfg.active_output) as i32;
            switch_to_peer(state, hal, output.number, to, dir_int);
        },
        ScreenSwitchAction::SwitchVirtualDesktop { new_index } => {
            let dir_int: i32 = match direction {
                SwitchDirection::Left => 1,
                SwitchDirection::Right => 2,
                SwitchDirection::NoEdge => {
                    return;
                },
            };
            switch_virtual_desktop(state, hal, output.os, new_index as i32, dir_int);
            state.cfg.config.output[output_idx].screen_index = new_index;
            proof {
                let ghost s1 = virtual_desktop_effect(*old(state), old(hal)@, output.os, new_index as i32, dir_int).0;
                assert(state.cfg.config.output =~= s1.with_output(output_idx as int, Output { screen_index: new_index, ..s1.cfg.config.output[output_idx as int] }).cfg.config.output);
            }
        },
    }
}

/// The state after a report moved the pointer, before it is routed.
pub open spec fn moved_state(s: Device, values: MouseValues) -> (Device, SwitchDirection) {
    let o = s.cfg.config.output[s.cfg.active_output as int];
    let p = updated_position(s.hid.pointer_x, s.hid.pointer_y, values, o.speed_x, o.speed_y, s.cfg.mouse_zoom,
        s.cfg.config.enable_acceleration != 0, s.cfg.config.jump_threshold);
    (Device { hid: DeviceHid { pointer_x: p.0, pointer_y: p.1, mouse_buttons: values.buttons as i16, ..s.hid }, ..s }, p.2)
}

/// What a mouse report does: the pointer moves, the report is routed (with
/// activity recorded here when this board drives the active output), and a
/// crossed screen edge is acted on.
pub open spec fn process_report_effect(s: Device, h: HalView, values: MouseValues) -> (Device, HalView) {
    if s.cfg.active_output >= 2 {
        (s, h)
    } else {
        let (s1, dir) = moved_state(s, values);
        let report = mouse_report_bytes_spec(mouse_report_spec(s1.hid.pointer_x, s1.hid.pointer_y, values, s1.cfg.relative_mouse, s1.cfg.gaming_mode));
        let (s2, h2) = if s1.is_active_output_spec() {
            (s1.touched(h.time_us), h.push_mouse_report(report))
        } else {
            (s1, h.send_packet(report@, packet_type_code(PacketType::MouseReport)))
        };
        if dir != SwitchDirection::NoEdge { screen_switch_effect(s2, h2, dir) } else { (s2, h2) }
    }
}

/// Process one report's movement.
#[verifier::rlimit(60)]
pub fn process_report(state: &mut Device, hal: &mut Hal, values: &MouseValues)
    ensures
        (*final(state), final(hal)@) == process_report_effect(*old(state), old(hal)@, *values),
{
    let output_idx = state.cfg.active_output as usize;
    if output_idx >= 2 {
        return;
    }
    let output = state.cfg.config.output[output_idx];
    let (new_x, new_y, dir) = update_mouse_position(
        state.hid.pointer_x,
        state.hid.pointer_y,
        values,
        output.speed_x,
        output.speed_y,
        state.cfg.mouse_zoom,
        state.cfg.config.enable_acceleration != 0,
        state.cfg.config.jump_threshold,
    );
    state.hid.pointer_x = new_x;
    state.hid.pointer_y = new_y;
    state.hid.mouse_buttons = values.buttons as i16;
    let report = create_mouse_report(state.hid.pointer_x, state.hid.pointer_y, values, state.cfg.relative_mouse, state.cfg.gaming_mode);
    let report_bytes = mouse_report_to_bytes(&report);
    hal.route_mouse(state, report_bytes);
    if dir != SwitchDirection::NoEdge {
        do_screen_switch(state, hal, dir);
    }
}

} // verus!
