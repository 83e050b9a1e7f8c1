//! What the simple peer messages do to the board state, and which of them
//! still need the hardware boundary afterwards.
use vstd::prelude::*;
use crate::constants::{packet_type_of, PacketType, NUM_SCREENS};
use crate::hotkey_handlers::with_screensaver_mode;
use crate::mouse::{i16_from_le, i16_from_le_bytes};
use crate::packet::payload_u16;
use crate::structs::{kbd_report_of, kbd_report_from_bytes, Device, DeviceConfig, DeviceFw, DeviceHid, FwUpgradeState};

verus! {

/// The effect a simple peer message asks for.
#[derive(Clone, Copy, Debug, PartialEq, Eq, Structural)]
pub enum HandlerAction {
    NoAction,
    OutputSelect(u8),
    MouseZoom(bool),
    KbdSetReport(u8),
    SwitchLock(bool),
    FlashLed,
    WipeConfig,
    Screensaver(u8),
    GamingMode(bool),
    SaveConfig,
    Reboot,
    Heartbeat,
    StartFwUpgrade(u16),
}

/// The effect of a simple message of type `ptype` with payload `data`, for
/// a board running firmware `running_version`.
pub open spec fn simple_msg_action(ptype: u8, data: [u8; 8], running_version: u16, upgrading: bool) -> HandlerAction {
    match packet_type_of(ptype) {
        Some(PacketType::OutputSelect) => if data[0] < NUM_SCREENS { HandlerAction::OutputSelect(data[0]) } else { HandlerAction::NoAction },
        Some(PacketType::MouseZoom) => HandlerAction::MouseZoom(data[0] != 0),
        Some(PacketType::KbdSetReport) => HandlerAction::KbdSetReport(data[0]),
        Some(PacketType::SwitchLock) => HandlerAction::SwitchLock(data[0] != 0),
        Some(PacketType::FlashLed) => HandlerAction::FlashLed,
        Some(PacketType::WipeConfig) => HandlerAction::WipeConfig,
        Some(PacketType::Screensaver) => HandlerAction::Screensaver(data[0]),
        Some(PacketType::GamingMode) => HandlerAction::GamingMode(data[0] != 0),
        Some(PacketType::SaveConfig) => HandlerAction::SaveConfig,
        Some(PacketType::Reboot) => HandlerAction::Reboot,
        Some(PacketType::Heartbeat) => if payload_u16(data) > running_version && !upgrading {
            HandlerAction::StartFwUpgrade(payload_u16(data))
        } else {
            HandlerAction::Heartbeat
        },
        _ => HandlerAction::NoAction,
    }
}

/// Decide what a simple peer message asks for. A heartbeat from a peer
/// that runs newer firmware starts an upgrade, unless one is under way.
pub fn handle_simple_msg(ptype: u8, data: &[u8; 8], state: &Device) -> (a: HandlerAction)
    ensures
        a == simple_msg_action(ptype, *data, state.fw.running_fw.version, state.fw.fw.upgrade_in_progress),
{
    match PacketType::from_u8(ptype) {
        Some(PacketType::OutputSelect) => if (data[0] as usize) < NUM_SCREENS { HandlerAction::OutputSelect(data[0]) } else { HandlerAction::NoAction },
        Some(PacketType::MouseZoom) => HandlerAction::MouseZoom(data[0] != 0),
        Some(PacketType::KbdSetReport) => HandlerAction::KbdSetReport(data[0]),
        Some(PacketType::SwitchLock) => HandlerAction::SwitchLock(data[0] != 0),
        Some(PacketType::FlashLed) => HandlerAction::FlashLed,
        Some(PacketType::WipeConfig) => HandlerAction::WipeConfig,
        Some(PacketType::Screensaver) => HandlerAction::Screensaver(data[0]),
        Some(PacketType::GamingMode) => HandlerAction::GamingMode(data[0] != 0),
        Some(PacketType::SaveConfig) => HandlerAction::SaveConfig,
        Some(PacketType::Reboot) => HandlerAction::Reboot,
        Some(PacketType::Heartbeat) => {
            let peer: u16 = (data[0] as u16) + (data[1] as u16) * 256;
            if peer > state.fw.running_fw.version && !state.fw.fw.upgrade_in_progress {
                HandlerAction::StartFwUpgrade(peer)
            } else {
                HandlerAction::Heartbeat
            }
        },
        _ => HandlerAction::NoAction,
    }
}

/// The board state after an action is applied.
pub open spec fn applied_state(a: HandlerAction, s: Device) -> Device {
    match a {
        HandlerAction::MouseZoom(b) => Device { cfg: DeviceConfig { mouse_zoom: b, ..s.cfg }, ..s },
        HandlerAction::SwitchLock(b) => Device { cfg: DeviceConfig { switch_lock: b, ..s.cfg }, ..s },
        HandlerAction::GamingMode(b) => Device { cfg: DeviceConfig { gaming_mode: b, ..s.cfg }, ..s },
        HandlerAction::Screensaver(m) => if s.cfg.board_role < 2 {
            with_screensaver_mode(s, s.cfg.board_role as int, m)
        } else {
            s
        },
        HandlerAction::StartFwUpgrade(v) => Device {
            fw: DeviceFw {
                fw: FwUpgradeState { address: 0, checksum: 0xFFFF_FFFF, version: v, byte_done: false, upgrade_in_progress: true },
                ..s.fw
            },
            ..s
        },
        _ => s,
    }
}

/// Whether an action still needs the hardware boundary once applied.
pub open spec fn needs_hal(a: HandlerAction) -> bool {
    match a {
        HandlerAction::OutputSelect(_) | HandlerAction::KbdSetReport(_) | HandlerAction::FlashLed
        | HandlerAction::WipeConfig | HandlerAction::SaveConfig | HandlerAction::Reboot => true,
        _ => false,
    }
}

/// Apply the state part of an action; tell whether it still needs the
/// hardware boundary. Starting an upgrade seeds the checksum afresh.
pub fn apply_action(action: &HandlerAction, state: &mut Device) -> (r: bool)
    ensures
        r == needs_hal(*action),
        *final(state) == applied_state(*action, *old(state)),
{
    match *action {
        HandlerAction::MouseZoom(b) => {
            state.cfg.mouse_zoom = b;
            false
        },
        HandlerAction::SwitchLock(b) => {
            state.cfg.switch_lock = b;
            false
        },
        HandlerAction::GamingMode(b) => {
            state.cfg.gaming_mode = b;
            false
        },
        HandlerAction::Screensaver(m) => {
            let role = state.cfg.board_role as usize;
            if role < 2 {
                state.cfg.config.output[role].screensaver.mode = m;
                assert(state.cfg.config.output =~= with_screensaver_mode(*old(state), role as int, m).cfg.config.output);
            }
            false
        },
        HandlerAction::StartFwUpgrade(v) => {
            state.fw.fw = FwUpgradeState { address: 0, checksum: 0xFFFF_FFFF, version: v, byte_done: false, upgrade_in_progress: true };
            false
        },
        HandlerAction::OutputSelect(_) | HandlerAction::KbdSetReport(_) | HandlerAction::FlashLed
        | HandlerAction::WipeConfig | HandlerAction::SaveConfig | HandlerAction::Reboot => true,
        _ => false,
    }
}

/// Store the peer's keyboard report as the remote keyboard state.
pub fn handle_keyboard_uart(data: &[u8; 8], state: &mut Device)
    ensures
        *final(state) == (Device { hid: DeviceHid { remote_kbd_state: kbd_report_of(*data), ..old(state).hid }, ..*old(state) }),
{
    state.hid.remote_kbd_state = kbd_report_from_bytes(data);
}

/// Take the pointer position and buttons from the peer's mouse report.
pub fn handle_mouse_uart(data: &[u8; 8], state: &mut Device)
    ensures
        *final(state) == (Device {
            hid: DeviceHid {
                mouse_buttons: data[0] as i16,
                pointer_x: i16_from_le(data[1], data[2]),
                pointer_y: i16_from_le(data[3], data[4]),
                ..old(state).hid
            },
            ..*old(state)
        }),
{
    state.hid.mouse_buttons = data[0] as i16;
    state.hid.pointer_x = i16_from_le_bytes(data[1], data[2]);
    state.hid.pointer_y = i16_from_le_bytes(data[3], data[4]);
}

} // verus!
