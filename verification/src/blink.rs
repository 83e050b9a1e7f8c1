//! The board LED's blink sequence: a number of toggles 80 ms apart, the
//! last of which restores the normal indication.
use vstd::prelude::*;

verus! {

/// Time between two blink toggles.
pub const BLINK_INTERVAL_US: u32 = 80_000;

/// What the blink sequence asks for now.
#[derive(Clone, Copy, Debug, PartialEq, Eq, Structural)]
pub enum BlinkAction {
    /// No sequence running: show the normal indication.
    Idle,
    /// Not yet time for the next toggle.
    Wait,
    /// Toggle the LED.
    Toggle,
    /// Toggle for the last time, then restore the normal indication.
    ToggleAndRestore,
}

/// The step of the blink sequence at time `now` (wrapping microseconds).
pub open spec fn blink_step_spec(blinks_left: i32, last_led_change: i32, now: u32) -> BlinkAction {
    if blinks_left <= 0 {
        BlinkAction::Idle
    } else if ((now as int - (last_led_change as u32) as int) % 0x1_0000_0000) < BLINK_INTERVAL_US {
        BlinkAction::Wait
    } else if blinks_left == 1 {
        BlinkAction::ToggleAndRestore
    } else {
        BlinkAction::Toggle
    }
}

/// Decide the blink sequence's step at time `now`.
pub fn blink_step(blinks_left: i32, last_led_change: i32, now: u32) -> (a: BlinkAction)
    ensures
        a == blink_step_spec(blinks_left, last_led_change, now),
{
    if blinks_left <= 0 {
        return BlinkAction::Idle;
    }
    let elapsed = now.wrapping_sub(last_led_change as u32);
    if elapsed < BLINK_INTERVAL_US {
        BlinkAction::Wait
    } else if blinks_left == 1 {
        BlinkAction::ToggleAndRestore
    } else {
        BlinkAction::Toggle
    }
}

} // verus!
