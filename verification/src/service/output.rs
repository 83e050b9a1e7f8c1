//! Switching the active output.
use vstd::prelude::*;
use crate::constants::{packet_type_code, PacketType};
use crate::hal::{Hal, HalCall, HalView, PeerLink};
use crate::keyboard::released;
use crate::service::backend::host_link::release_all_keys;
use crate::service::led::sync_indicators;
use crate::structs::{Device, DeviceConfig};

verus! {

/// The boundary after an output switch: indicators first, then the peer
/// is told, then every key is released.
pub open spec fn output_switch_effects(s: Device, output: u8, h: HalView) -> HalView {
    let lit = output == s.cfg.board_role;
    let h1 = h.set_board_led(lit);
    let h2 = if s.cfg.keyboard_connected {
        h1.send_kbd_leds(s.hid.kbd_dev_addr, s.hid.kbd_instance, s.cfg.keyboard_leds_desired[output as int])
    } else {
        h1
    };
    h2.send_value(output, packet_type_code(PacketType::OutputSelect)).push_kbd_report([0u8, 0, 0, 0, 0, 0, 0, 0])
}

/// Make `output` the active one: update the indicators, notify the peer,
/// and release every held key.
pub fn switch_output(state: &mut Device, output: u8, hal: &mut Hal)
    requires
        old(state).cfg.keyboard_connected ==> output < 2,
    ensures
        final(hal)@ == output_switch_effects(*old(state), output, old(hal)@),
        final(hal)@.calls == old(hal)@.calls + seq![HalCall::SetBoardLed(output == old(state).cfg.board_role)]
            + (if old(state).cfg.keyboard_connected { seq![HalCall::SendKbdLeds] } else { Seq::empty() })
            + seq![HalCall::SendValue(output, packet_type_code(PacketType::OutputSelect)), HalCall::PushKbdReport],
        *final(state) == released(Device {
            cfg: DeviceConfig {
                active_output: output,
                onboard_led_state: output == old(state).cfg.board_role,
                ..old(state).cfg
            },
            ..*old(state)
        }),
{
    state.cfg.active_output = output;
    sync_indicators(&mut state.cfg, &state.hid, hal);
    hal.send_value(output, PacketType::OutputSelect.to_u8());
    release_all_keys(state, hal);
}

} // verus!
