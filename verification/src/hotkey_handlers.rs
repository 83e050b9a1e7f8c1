//! State changes that hotkeys make on the board state.
use vstd::prelude::*;
use crate::structs::{Device, DeviceConfig, Output, Screensaver};

verus! {

/// Where a screensaver mode change goes.
#[derive(Clone, Copy, Debug, PartialEq, Eq, Structural)]
pub enum ScreensaverAction {
    /// This board drives the active output and stored the mode itself.
    UpdatedLocally,
    /// The peer drives the active output: send it the mode.
    SendToRemote(u8),
}

/// Screensaver modes.
pub const SCREENSAVER_DISABLED: u8 = 0;
pub const SCREENSAVER_PONG: u8 = 1;
pub const SCREENSAVER_JITTER: u8 = 2;

/// The other output.
pub open spec fn other_output(o: u8) -> u8 {
    if o == 0 { 1 } else { 0 }
}

/// Switch to the other output unless the switch is locked; tell whether
/// the output changed.
pub fn output_toggle(state: &mut Device) -> (switched: bool)
    ensures
        switched == !old(state).cfg.switch_lock,
        switched ==> *final(state) == (Device {
            cfg: DeviceConfig { active_output: other_output(old(state).cfg.active_output), ..old(state).cfg },
            ..*old(state)
        }),
        !switched ==> *final(state) == *old(state),
{
    if state.cfg.switch_lock {
        return false;
    }
    state.cfg.active_output = if state.cfg.active_output == 0 { 1 } else { 0 };
    true
}

/// Flip the mouse zoom and return its new value.
pub fn mouse_zoom_toggle(state: &mut Device) -> (v: bool)
    ensures
        v == !old(state).cfg.mouse_zoom,
        *final(state) == (Device { cfg: DeviceConfig { mouse_zoom: v, ..old(state).cfg }, ..*old(state) }),
{
    state.cfg.mouse_zoom = !state.cfg.mouse_zoom;
    state.cfg.mouse_zoom
}

/// Flip the switch lock and return its new value.
pub fn switch_lock_toggle(state: &mut Device) -> (v: bool)
    ensures
        v == !old(state).cfg.switch_lock,
        *final(state) == (Device { cfg: DeviceConfig { switch_lock: v, ..old(state).cfg }, ..*old(state) }),
{
    state.cfg.switch_lock = !state.cfg.switch_lock;
    state.cfg.switch_lock
}

/// Flip gaming mode and return its new value.
pub fn gaming_mode_toggle(state: &mut Device) -> (v: bool)
    ensures
        v == !old(state).cfg.gaming_mode,
        *final(state) == (Device { cfg: DeviceConfig { gaming_mode: v, ..old(state).cfg }, ..*old(state) }),
{
    state.cfg.gaming_mode = !state.cfg.gaming_mode;
    state.cfg.gaming_mode
}

/// This state with the screensaver mode of output `idx` replaced.
pub open spec fn with_screensaver_mode(s: Device, idx: int, mode: u8) -> Device {
    s.with_output(
        idx,
        Output {
            screensaver: Screensaver { mode, ..s.cfg.config.output[idx].screensaver },
            ..s.cfg.config.output[idx]
        },
    )
}

/// Set the screensaver mode of the active output: stored here when this
/// board drives it, otherwise handed to the peer.
pub fn screensaver_set(state: &mut Device, mode: u8) -> (a: ScreensaverAction)
    ensures
        old(state).is_active_output_spec() ==> a == ScreensaverAction::UpdatedLocally,
        !old(state).is_active_output_spec() ==> a == ScreensaverAction::SendToRemote(mode),
        *final(state) == (if old(state).is_active_output_spec() && old(state).cfg.board_role < 2 {
            with_screensaver_mode(*old(state), old(state).cfg.board_role as int, mode)
        } else {
            *old(state)
        }),
{
    if state.is_active_output() {
        let role = state.cfg.board_role as usize;
        if role < 2 {
            state.cfg.config.output[role].screensaver.mode = mode;
            assert(state.cfg.config.output =~= with_screensaver_mode(*old(state), role as int, mode).cfg.config.output);
        }
        ScreensaverAction::UpdatedLocally
    } else {
        ScreensaverAction::SendToRemote(mode)
    }
}

} // verus!
