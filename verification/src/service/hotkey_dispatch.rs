//! What each hotkey does, on the board state and on the hardware boundary.
use vstd::prelude::*;
use crate::actions::{border_bytes, border_to_bytes, screenlock_keys, screenlock_keys_spec};
use crate::constants::{packet_type_code, PacketType};
use crate::hal::{ConfigStore, Hal, HalCall, HalView, OutputControl, PeerLink, ReportQueue, Watchdog};
use crate::hotkey_handlers::{
    gaming_mode_toggle as toggle_gaming_mode, mouse_zoom_toggle as toggle_mouse_zoom, other_output,
    output_toggle as toggle_output, screensaver_set, switch_lock_toggle as toggle_switch_lock,
    with_screensaver_mode, ScreensaverAction, SCREENSAVER_DISABLED, SCREENSAVER_JITTER, SCREENSAVER_PONG,
};
use crate::keyboard::{released, HotkeyAction};
use crate::service::backend::host_link::release_all_keys;
use crate::service::msg_bridge::{border_from_pointer, set_border_from_pointer};
use crate::structs::{Device, DeviceConfig, DeviceFw};

verus! {

/// An empty keyboard report on the wire.
pub open spec fn zero_report() -> [u8; 8] {
    [0u8, 0, 0, 0, 0, 0, 0, 0]
}

/// Toggling the output: refused under the switch lock, otherwise the other
/// output becomes active and the boundary is told.
pub open spec fn output_toggle_effect(s: Device, h: HalView) -> (Device, HalView) {
    if s.cfg.switch_lock {
        (s, h)
    } else {
        let o = other_output(s.cfg.active_output);
        (Device { cfg: DeviceConfig { active_output: o, ..s.cfg }, ..s }, h.switch_output(o))
    }
}

/// Switch to the other output unless the switch is locked.
pub fn output_toggle(state: &mut Device, hal: &mut Hal)
    ensures
        (*final(state), final(hal)@) == output_toggle_effect(*old(state), old(hal)@),
{
    if toggle_output(state) {
        hal.switch_output(state.cfg.active_output);
    }
}

/// Toggling the output twice brings the board back to the output it was
/// on, telling the host side about both switches; with the switch locked,
/// nothing happens at all.
pub proof fn lemma_output_toggle_twice(s: Device, h: HalView)
    requires
        s.cfg.active_output < 2,
    ensures
        output_toggle_effect(output_toggle_effect(s, h).0, output_toggle_effect(s, h).1).0 == s,
        !s.cfg.switch_lock ==> output_toggle_effect(output_toggle_effect(s, h).0, output_toggle_effect(s, h).1).1
            == h.switch_output(other_output(s.cfg.active_output)).switch_output(s.cfg.active_output),
        s.cfg.switch_lock ==> output_toggle_effect(output_toggle_effect(s, h).0, output_toggle_effect(s, h).1).1 == h,
{
}

/// A flag's value on the wire.
pub open spec fn flag_byte(b: bool) -> u8 {
    if b { 1 } else { 0 }
}

/// Flip the mouse zoom and tell the peer.
pub fn mouse_zoom_toggle(state: &mut Device, hal: &mut Hal)
    ensures
        *final(state) == (Device { cfg: DeviceConfig { mouse_zoom: !old(state).cfg.mouse_zoom, ..old(state).cfg }, ..*old(state) }),
        final(hal)@ == old(hal)@.send_value(flag_byte(!old(state).cfg.mouse_zoom), packet_type_code(PacketType::MouseZoom)),
{
    let v = toggle_mouse_zoom(state);
    hal.send_value(if v { 1 } else { 0 }, PacketType::MouseZoom.to_u8());
}

/// Flip the switch lock and tell the peer.
pub fn switch_lock_toggle(state: &mut Device, hal: &mut Hal)
    ensures
        *final(state) == (Device { cfg: DeviceConfig { switch_lock: !old(state).cfg.switch_lock, ..old(state).cfg }, ..*old(state) }),
        final(hal)@ == old(hal)@.send_value(flag_byte(!old(state).cfg.switch_lock), packet_type_code(PacketType::SwitchLock)),
{
    let v = toggle_switch_lock(state);
    hal.send_value(if v { 1 } else { 0 }, PacketType::SwitchLock.to_u8());
}

/// Flip gaming mode and tell the peer.
pub fn gaming_mode_toggle(state: &mut Device, hal: &mut Hal)
    ensures
        *final(state) == (Device { cfg: DeviceConfig { gaming_mode: !old(state).cfg.gaming_mode, ..old(state).cfg }, ..*old(state) }),
        final(hal)@ == old(hal)@.send_value(flag_byte(!old(state).cfg.gaming_mode), packet_type_code(PacketType::GamingMode)),
{
    let v = toggle_gaming_mode(state);
    hal.send_value(if v { 1 } else { 0 }, PacketType::GamingMode.to_u8());
}

/// The lock shortcut for one output: pressed and released on this board's
/// host when this board drives it, sent to the peer as two reports otherwise.
pub open spec fn screenlock_for_effect(s: Device, h: HalView, out: u8) -> (Device, HalView) {
    match screenlock_keys_spec(s.cfg.config.output[out as int].os) {
        None => (s, h),
        Some(mk) => {
            let r: [u8; 8] = [mk.0, 0, mk.1, 0, 0, 0, 0, 0];
            if s.cfg.board_role == out {
                (released(s), h.push_kbd_report(r).push_kbd_report(zero_report()))
            } else {
                (s, h.send_packet(r@, packet_type_code(PacketType::KeyboardReport)).send_packet(
                    zero_report()@,
                    packet_type_code(PacketType::KeyboardReport),
                ))
            }
        },
    }
}

/// The calls the lock shortcut for one output makes: two reports pushed
/// to this board's host, or two keyboard packets to the peer, or none
/// when the output's system has no lock shortcut.
pub open spec fn screenlock_calls(s: Device, out: u8) -> Seq<HalCall> {
    match screenlock_keys_spec(s.cfg.config.output[out as int].os) {
        None => Seq::empty(),
        Some(mk) => if s.cfg.board_role == out {
            seq![HalCall::PushKbdReport, HalCall::PushKbdReport]
        } else {
            seq![
                HalCall::SendPacket(packet_type_code(PacketType::KeyboardReport)),
                HalCall::SendPacket(packet_type_code(PacketType::KeyboardReport)),
            ]
        },
    }
}

/// The lock shortcut sent to both outputs, first output A then B.
pub open spec fn screenlock_effect(s: Device, h: HalView) -> (Device, HalView) {
    let (s1, h1) = screenlock_for_effect(s, h, 0);
    screenlock_for_effect(s1, h1, 1)
}

fn screenlock_for(state: &mut Device, hal: &mut Hal, out: u8)
    requires
        out < 2,
    ensures
        (*final(state), final(hal)@) == screenlock_for_effect(*old(state), old(hal)@, out),
{
    if let Some((modifier, key)) = screenlock_keys(state.cfg.config.output[out as usize].os) {
        let report = [modifier, 0, key, 0, 0, 0, 0, 0];
        let zero = [0u8, 0, 0, 0, 0, 0, 0, 0];
        if state.cfg.board_role == out {
            hal.push_kbd_report(report);
            release_all_keys(state, hal);
        } else {
            hal.send_packet(report.as_slice(), PacketType::KeyboardReport.to_u8());
            hal.send_packet(zero.as_slice(), PacketType::KeyboardReport.to_u8());
        }
    }
}

/// Send each output's lock-screen shortcut, for the operating system
/// configured for it.
pub fn execute_screenlock(state: &mut Device, hal: &mut Hal)
    ensures
        (*final(state), final(hal)@) == screenlock_effect(*old(state), old(hal)@),
        final(hal)@.calls == old(hal)@.calls + screenlock_calls(*old(state), 0) + screenlock_calls(*old(state), 1),
{
    screenlock_for(state, hal, 0);
    screenlock_for(state, hal, 1);
}

/// Entering configuration mode: the boot flag unless already in it, every
/// key released, and a reboot requested.
pub open spec fn config_mode_effect(s: Device, h: HalView) -> (Device, HalView) {
    let r = released(s);
    (
        Device { fw: DeviceFw { reboot_requested: true, ..r.fw }, ..r },
        (if !s.cfg.config_mode_active { h.set_boot_flag() } else { h }).push_kbd_report(zero_report()),
    )
}

/// Prepare to enter configuration mode.
pub fn prepare_config_mode(state: &mut Device, hal: &mut Hal)
    ensures
        (*final(state), final(hal)@) == config_mode_effect(*old(state), old(hal)@),
        final(hal)@.calls == old(hal)@.calls + (if old(state).cfg.config_mode_active {
            seq![HalCall::PushKbdReport]
        } else {
            seq![HalCall::SetBootFlag, HalCall::PushKbdReport]
        }),
        final(hal)@.kbd_reports == old(hal)@.kbd_reports.push(zero_report()),
{
    if !state.cfg.config_mode_active {
        hal.set_boot_flag();
    }
    release_all_keys(state, hal);
    state.fw.reboot_requested = true;
}

/// Setting a border by hotkey: the board that drives the active output
/// takes it from the pointer and saves; both boards send the borders on.
pub open spec fn screen_border_effect(s: Device, h: HalView) -> (Device, HalView) {
    let idx = s.cfg.active_output as int;
    if idx >= 2 {
        (s, h)
    } else {
        let (s1, h1) = if s.is_active_output_spec() { (border_from_pointer(s), h.save()) } else { (s, h) };
        let b = s1.cfg.config.output[idx].border;
        (s1, h1.send_packet(border_bytes(b.top, b.bottom)@, packet_type_code(PacketType::SyncBorders)))
    }
}

/// Update the active output's border from the pointer and sync it with the peer.
pub fn update_screen_border(state: &mut Device, hal: &mut Hal)
    ensures
        (*final(state), final(hal)@) == screen_border_effect(*old(state), old(hal)@),
{
    let idx = state.cfg.active_output as usize;
    if idx >= 2 {
        return;
    }
    if state.is_active_output() {
        set_border_from_pointer(state);
        hal.save();
    }
    let top = state.cfg.config.output[idx].border.top;
    let bottom = state.cfg.config.output[idx].border.bottom;
    let bytes = border_to_bytes(top, bottom);
    hal.send_packet(bytes.as_slice(), PacketType::SyncBorders.to_u8());
}

/// A screensaver mode change: stored here when this board drives the
/// active output, sent to the peer otherwise.
pub open spec fn screensaver_effect(s: Device, h: HalView, mode: u8) -> (Device, HalView) {
    if s.is_active_output_spec() {
        (if s.cfg.board_role < 2 { with_screensaver_mode(s, s.cfg.board_role as int, mode) } else { s }, h)
    } else {
        (s, h.send_value(mode, packet_type_code(PacketType::Screensaver)))
    }
}

/// Change the screensaver mode.
pub fn dispatch_screensaver(state: &mut Device, hal: &mut Hal, mode: u8)
    ensures
        (*final(state), final(hal)@) == screensaver_effect(*old(state), old(hal)@, mode),
{
    match screensaver_set(state, mode) {
        ScreensaverAction::UpdatedLocally => {},
        ScreensaverAction::SendToRemote(m) => {
            hal.send_value(m, PacketType::Screensaver.to_u8());
        },
    }
}

/// Wiping the configuration: wipe, reload the defaults, tell the peer.
pub open spec fn wipe_effect(h: HalView) -> HalView {
    h.wipe().load().send_value(1, packet_type_code(PacketType::WipeConfig))
}

/// Wipe the configuration, reload the defaults and notify the peer.
pub fn wipe_and_notify(hal: &mut Hal)
    ensures
        final(hal)@ == wipe_effect(old(hal)@),
        final(hal)@.calls == old(hal)@.calls + seq![
            HalCall::Wipe,
            HalCall::Load,
            HalCall::SendValue(1, packet_type_code(PacketType::WipeConfig)),
        ],
{
    hal.wipe();
    hal.load();
    hal.send_value(1, PacketType::WipeConfig.to_u8());
}

/// What a hotkey action does.
pub open spec fn hotkey_effect(action: HotkeyAction, s: Device, h: HalView) -> (Device, HalView) {
    match action {
        HotkeyAction::OutputToggle => output_toggle_effect(s, h),
        HotkeyAction::MouseZoomToggle => (
            Device { cfg: DeviceConfig { mouse_zoom: !s.cfg.mouse_zoom, ..s.cfg }, ..s },
            h.send_value(flag_byte(!s.cfg.mouse_zoom), packet_type_code(PacketType::MouseZoom)),
        ),
        HotkeyAction::SwitchLockToggle => (
            Device { cfg: DeviceConfig { switch_lock: !s.cfg.switch_lock, ..s.cfg }, ..s },
            h.send_value(flag_byte(!s.cfg.switch_lock), packet_type_code(PacketType::SwitchLock)),
        ),
        HotkeyAction::GamingModeToggle => (
            Device { cfg: DeviceConfig { gaming_mode: !s.cfg.gaming_mode, ..s.cfg }, ..s },
            h.send_value(flag_byte(!s.cfg.gaming_mode), packet_type_code(PacketType::GamingMode)),
        ),
        HotkeyAction::ScreenLock => screenlock_effect(s, h),
        HotkeyAction::ScreensaverPong => screensaver_effect(s, h, SCREENSAVER_PONG),
        HotkeyAction::ScreensaverJitter => screensaver_effect(s, h, SCREENSAVER_JITTER),
        HotkeyAction::ScreensaverDisable => screensaver_effect(s, h, SCREENSAVER_DISABLED),
        HotkeyAction::WipeConfig => (s, wipe_effect(h)),
        HotkeyAction::ScreenBorder => screen_border_effect(s, h),
        HotkeyAction::ConfigEnable => config_mode_effect(s, h),
        HotkeyAction::FwUpgradeA => (s, h.reboot_to_bootloader()),
        HotkeyAction::FwUpgradeB => (s, h.send_value(1, packet_type_code(PacketType::FirmwareUpgrade))),
    }
}

/// Carry out a hotkey action.
pub fn execute_action(state: &mut Device, hal: &mut Hal, action: HotkeyAction)
    ensures
        (*final(state), final(hal)@) == hotkey_effect(action, *old(state), old(hal)@),
{
    match action {
        HotkeyAction::OutputToggle => output_toggle(state, hal),
        HotkeyAction::MouseZoomToggle => mouse_zoom_toggle(state, hal),
        HotkeyAction::SwitchLockToggle => switch_lock_toggle(state, hal),
        HotkeyAction::GamingModeToggle => gaming_mode_toggle(state, hal),
        HotkeyAction::ScreenLock => execute_screenlock(state, hal),
        HotkeyAction::ScreensaverPong => dispatch_screensaver(state, hal, SCREENSAVER_PONG),
        HotkeyAction::ScreensaverJitter => dispatch_screensaver(state, hal, SCREENSAVER_JITTER),
        HotkeyAction::ScreensaverDisable => dispatch_screensaver(state, hal, SCREENSAVER_DISABLED),
        HotkeyAction::WipeConfig => wipe_and_notify(hal),
        HotkeyAction::ScreenBorder => update_screen_border(state, hal),
        HotkeyAction::ConfigEnable => prepare_config_mode(state, hal),
        HotkeyAction::FwUpgradeA => hal.reboot_to_bootloader(),
        HotkeyAction::FwUpgradeB => hal.send_value(1, PacketType::FirmwareUpgrade.to_u8()),
    }
}

} // verus!
