//! When the screensaver moves the pointer.
use vstd::prelude::*;

verus! {

/// Least time between two screensaver pointer moves.
pub const MOUSE_MOVE_DELAY_US: u32 = 5000;
/// Highest screensaver mode.
pub const MAX_SCREENSAVER_MODE: u8 = 2;

/// Screensaver settings of the local output.
#[derive(Clone, Copy, Debug)]
pub struct ScreensaverConfig {
    pub mode: u8,
    pub only_if_inactive: bool,
    pub idle_time_us: u64,
    pub max_time_us: u64,
}

/// Whether the screensaver runs now: a mode is set, the board has been idle
/// long enough and not longer than the allowed run time after that, it is
/// not held back on the active output, the host is ready, and the last
/// pointer move is far enough behind.
pub open spec fn should_activate_spec(
    cfg: ScreensaverConfig,
    inactivity: u64,
    is_active: bool,
    usb_ready: bool,
    last_pointer_move: u32,
    now: u32,
) -> bool {
    &&& cfg.mode != 0
    &&& cfg.mode <= MAX_SCREENSAVER_MODE
    &&& inactivity >= cfg.idle_time_us
    &&& !(cfg.max_time_us != 0 && inactivity - cfg.idle_time_us > cfg.max_time_us)
    &&& !(cfg.only_if_inactive && is_active)
    &&& usb_ready
    &&& ((now as int - last_pointer_move as int) % 0x1_0000_0000) >= MOUSE_MOVE_DELAY_US
}

/// Decide whether the screensaver runs now.
pub fn should_activate(
    cfg: &ScreensaverConfig,
    inactivity: u64,
    is_active: bool,
    usb_ready: bool,
    last_pointer_move: u32,
    now: u32,
) -> (r: bool)
    ensures
        r == should_activate_spec(*cfg, inactivity, is_active, usb_ready, last_pointer_move, now),
{
    if cfg.mode == 0 || cfg.mode > MAX_SCREENSAVER_MODE {
        return false;
    }
    if inactivity < cfg.idle_time_us {
        return false;
    }
    if cfg.max_time_us != 0 && inactivity - cfg.idle_time_us > cfg.max_time_us {
        return false;
    }
    if cfg.only_if_inactive && is_active {
        return false;
    }
    if !usb_ready {
        return false;
    }
    now.wrapping_sub(last_pointer_move) >= MOUSE_MOVE_DELAY_US
}

} // verus!
