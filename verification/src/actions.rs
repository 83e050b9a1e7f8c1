//! Small decisions shared by hotkeys and peer messages: which border a
//! pointer position sets, how borders travel, and each OS's lock shortcut.
use vstd::prelude::*;
use crate::bytes::{i32_to_le_bytes, le32};
use crate::constants::{
    HID_KEY_L, HID_KEY_Q, KEYBOARD_MODIFIER_LEFTCTRL, KEYBOARD_MODIFIER_LEFTGUI, MAX_SCREEN_COORD, OS_LINUX,
    OS_MACOS, OS_WINDOWS,
};

verus! {

/// Which border a pointer position sets, and to what.
#[derive(Clone, Copy, Debug, PartialEq, Eq, Structural)]
pub enum BorderUpdate {
    Top(i32),
    Bottom(i32),
}

/// The border set from a pointer position: the top one in the upper half of
/// the screen, the bottom one otherwise.
pub open spec fn border_position(pointer_y: i16) -> BorderUpdate {
    if pointer_y < MAX_SCREEN_COORD / 2 {
        BorderUpdate::Top(pointer_y as i32)
    } else {
        BorderUpdate::Bottom(pointer_y as i32)
    }
}

/// Decide which border the pointer position sets.
pub fn get_border_position(pointer_y: i16) -> (b: BorderUpdate)
    ensures
        b == border_position(pointer_y),
{
    if pointer_y < MAX_SCREEN_COORD / 2 {
        BorderUpdate::Top(pointer_y as i32)
    } else {
        BorderUpdate::Bottom(pointer_y as i32)
    }
}

/// Wire form of a border pair: top then bottom, each little-endian.
pub open spec fn border_bytes(top: i32, bottom: i32) -> [u8; 8] {
    let t = le32(top as u32);
    let b = le32(bottom as u32);
    [t[0], t[1], t[2], t[3], b[0], b[1], b[2], b[3]]
}

/// Encode a border pair for the peer.
pub fn border_to_bytes(top: i32, bottom: i32) -> (r: [u8; 8])
    ensures
        r == border_bytes(top, bottom),
{
    let t = i32_to_le_bytes(top);
    let b = i32_to_le_bytes(bottom);
    let r = [t[0], t[1], t[2], t[3], b[0], b[1], b[2], b[3]];
    assert(r =~= border_bytes(top, bottom));
    r
}

/// The lock-screen shortcut of an operating system, as (modifier, key).
pub open spec fn screenlock_keys_spec(os: u8) -> Option<(u8, u8)> {
    if os == OS_LINUX || os == OS_WINDOWS {
        Some((KEYBOARD_MODIFIER_LEFTGUI, HID_KEY_L))
    } else if os == OS_MACOS {
        Some((KEYBOARD_MODIFIER_LEFTCTRL | KEYBOARD_MODIFIER_LEFTGUI, HID_KEY_Q))
    } else {
        None
    }
}

/// Look up the lock-screen shortcut of an operating system; there is none
/// for an unknown one.
pub fn screenlock_keys(os: u8) -> (r: Option<(u8, u8)>)
    ensures
        r == screenlock_keys_spec(os),
{
    if os == OS_LINUX || os == OS_WINDOWS {
        Some((KEYBOARD_MODIFIER_LEFTGUI, HID_KEY_L))
    } else if os == OS_MACOS {
        Some((KEYBOARD_MODIFIER_LEFTCTRL | KEYBOARD_MODIFIER_LEFTGUI, HID_KEY_Q))
    } else {
        None
    }
}

} // verus!
