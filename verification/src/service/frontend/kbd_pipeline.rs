//! Keyboard input: hotkey detection, state combination and routing.
use vstd::prelude::*;
use crate::constants::{packet_type_code, PacketType};
use crate::hal::{Hal, HalView};
use crate::keyboard::{
    check_all_hotkeys, combine_kbd_states, combined_report, first_hotkey_from, kbd_state_updated, update_kbd_state,
    HotkeyAction,
};
use crate::service::router::ReportRouter;
use crate::structs::{kbd_report_bytes_spec, kbd_report_of, kbd_report_to_bytes, Device, HidKeyboardReport};

verus! {

/// What to do with a keyboard report.
#[derive(Clone, Copy, Debug, PartialEq, Eq, Structural)]
pub enum KbdAction {
    /// A hotkey took the report: it does not reach the host.
    HotkeyConsumed { action: HotkeyAction, acknowledge: bool },
    /// A hotkey fired, and the report still reaches the host.
    HotkeyPassthrough { action: HotkeyAction, acknowledge: bool },
    /// The report is dropped: a reboot is pending.
    Dropped,
    /// No hotkey: route the combined report.
    Route,
}

/// The action for a keyboard report, from the first hotkey that fires.
pub open spec fn kbd_action_for(report: HidKeyboardReport) -> KbdAction {
    match first_hotkey_from(report, 0) {
        Some(m) => if m.pass_to_os {
            KbdAction::HotkeyPassthrough { action: m.action, acknowledge: m.acknowledge }
        } else {
            KbdAction::HotkeyConsumed { action: m.action, acknowledge: m.acknowledge }
        },
        None => KbdAction::Route,
    }
}

/// Take a report from keyboard interface `itf`: record it as that
/// keyboard's state and check it against the hotkeys. Nothing is taken while
/// a reboot is pending.
pub fn process_report(state: &mut Device, report_bytes: &[u8; 8], itf: u8) -> (a: KbdAction)
    ensures
        old(state).fw.reboot_requested ==> a == KbdAction::Dropped && *final(state) == *old(state),
        !old(state).fw.reboot_requested ==> {
            &&& a == kbd_action_for(kbd_report_of(*report_bytes))
            &&& *final(state) == kbd_state_updated(*old(state), kbd_report_of(*report_bytes), itf)
        },
{
    if state.fw.reboot_requested {
        return KbdAction::Dropped;
    }
    let kbd = HidKeyboardReport {
        modifier: report_bytes[0],
        reserved: report_bytes[1],
        keycode: [report_bytes[2], report_bytes[3], report_bytes[4], report_bytes[5], report_bytes[6], report_bytes[7]],
    };
    assert(kbd == kbd_report_of(*report_bytes));
    update_kbd_state(state, &kbd, itf);
    if let Some(m) = check_all_hotkeys(&kbd) {
        if m.pass_to_os {
            return KbdAction::HotkeyPassthrough { action: m.action, acknowledge: m.acknowledge };
        } else {
            return KbdAction::HotkeyConsumed { action: m.action, acknowledge: m.acknowledge };
        }
    }
    KbdAction::Route
}

/// Route the combined keyboard state: to the host when this board drives
/// the active output (recording activity), to the peer otherwise.
pub fn route_combined(state: &mut Device, hal: &mut Hal)
    ensures
        old(state).is_active_output_spec() ==> final(hal)@ == old(hal)@.push_kbd_report(
            kbd_report_bytes_spec(combined_report(old(state).hid)),
        ) && *final(state) == old(state).touched(old(hal)@.time_us),
        !old(state).is_active_output_spec() ==> final(hal)@ == old(hal)@.send_packet(
            kbd_report_bytes_spec(combined_report(old(state).hid))@,
            packet_type_code(PacketType::KeyboardReport),
        ) && *final(state) == *old(state),
{
    let combined = combine_kbd_states(state);
    let bytes = kbd_report_to_bytes(&combined);
    hal.route_kbd(state, bytes);
}

} // verus!
