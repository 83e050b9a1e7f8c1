//! Indicators: the board LED that shows which output is active, and the
//! keyboard LEDs that follow the active output's host.
use vstd::prelude::*;
use crate::hal::{Hal, Indicator};
use crate::structs::{DeviceConfig, DeviceHid};

verus! {

/// Make the board LED show whether this board drives the active output,
/// and send the keyboard the LED state its host last asked for.
pub fn sync_indicators(cfg: &mut DeviceConfig, hid: &DeviceHid, hal: &mut Hal)
    requires
        old(cfg).keyboard_connected ==> old(cfg).active_output < 2,
    ensures
        *final(cfg) == (DeviceConfig { onboard_led_state: old(cfg).active_output == old(cfg).board_role, ..*old(cfg) }),
        final(hal)@ == (if old(cfg).keyboard_connected {
            old(hal)@.set_board_led(old(cfg).active_output == old(cfg).board_role).send_kbd_leds(
                hid.kbd_dev_addr,
                hid.kbd_instance,
                old(cfg).keyboard_leds_desired[old(cfg).active_output as int],
            )
        } else {
            old(hal)@.set_board_led(old(cfg).active_output == old(cfg).board_role)
        }),
{
    let is_active = cfg.active_output == cfg.board_role;
    cfg.onboard_led_state = is_active;
    hal.set_board_led(is_active);
    if cfg.keyboard_connected {
        let leds = cfg.keyboard_leds_desired[cfg.active_output as usize];
        hal.send_kbd_leds(hid.kbd_dev_addr, hid.kbd_instance, leds);
    }
}

/// The LED state to send the local keyboard again, if it differs from the
/// one the active output's host asked for. A failed send is retried until
/// the keyboard holds the wanted state.
pub fn led_sync_needed(cfg: &DeviceConfig) -> (r: Option<u8>)
    requires
        cfg.keyboard_connected ==> cfg.active_output < 2,
    ensures
        !cfg.keyboard_connected ==> r is None,
        cfg.keyboard_connected ==> r == (if cfg.keyboard_leds_actual != cfg.keyboard_leds_desired[cfg.active_output as int] {
            Some(cfg.keyboard_leds_desired[cfg.active_output as int])
        } else {
            None::<u8>
        }),
{
    if !cfg.keyboard_connected {
        return None;
    }
    let desired = cfg.keyboard_leds_desired[cfg.active_output as usize];
    if cfg.keyboard_leds_actual != desired {
        Some(desired)
    } else {
        None
    }
}

/// Send a keyboard LED state if a keyboard is connected.
pub fn send_kbd_led_report(cfg: &DeviceConfig, hid: &DeviceHid, leds: u8, hal: &mut Hal)
    ensures
        final(hal)@ == (if cfg.keyboard_connected {
            old(hal)@.send_kbd_leds(hid.kbd_dev_addr, hid.kbd_instance, leds)
        } else {
            old(hal)@
        }),
{
    if cfg.keyboard_connected {
        hal.send_kbd_leds(hid.kbd_dev_addr, hid.kbd_instance, leds);
    }
}

} // verus!
