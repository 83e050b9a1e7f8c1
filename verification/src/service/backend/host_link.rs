//! Delivery of queued reports to the host computer, and the release of
//! every held key.
use vstd::prelude::*;
use crate::constants::ITF_NUM_HID;
use crate::hal::{Hal, HalView, ReportQueue, UsbDevice};
use crate::keyboard::{released, release_all_keys_state};
use crate::mouse::{i16_from_le, i16_from_le_bytes};
use crate::structs::Device;

verus! {

/// The boundary after one attempt to deliver the oldest queued keyboard
/// report: nothing without a host or a report; a suspended host is woken;
/// the report is sent when the endpoint is ready, and leaves the queue
/// only if the send succeeded (a failed send is still asked for).
pub open spec fn pending_kbd_delivery(connected: bool, h: HalView) -> HalView {
    if !connected || h.kbd_queue_in.len() == 0 {
        h
    } else {
        let r = h.kbd_queue_in[0];
        let h1 = if h.usb_suspended { h.remote_wakeup() } else { h };
        if !h1.hid_ready(ITF_NUM_HID) {
            h1
        } else if h1.usb_send_ok {
            h1.send_keyboard_report(1, r[0], r@.subrange(2, 8)).pop_kbd_report()
        } else {
            h1.send_keyboard_report(1, r[0], r@.subrange(2, 8))
        }
    }
}

/// The same for the oldest queued mouse report, whose bytes are buttons,
/// x and y little-endian, wheel, pan and mode.
pub open spec fn pending_mouse_delivery(connected: bool, h: HalView) -> HalView {
    if !connected || h.mouse_queue_in.len() == 0 {
        h
    } else {
        let r = h.mouse_queue_in[0];
        let h1 = if h.usb_suspended { h.remote_wakeup() } else { h };
        if !h1.hid_ready(ITF_NUM_HID) {
            h1
        } else if h1.usb_send_ok {
            h1.send_mouse_report(r[7], r[0], i16_from_le(r[1], r[2]), i16_from_le(r[3], r[4]), r[5] as i8, r[6] as i8)
                .pop_mouse_report()
        } else {
            h1.send_mouse_report(r[7], r[0], i16_from_le(r[1], r[2]), i16_from_le(r[3], r[4]), r[5] as i8, r[6] as i8)
        }
    }
}

/// Send one pending keyboard report to the host if the endpoint is ready.
pub fn send_pending_kbd(state: &Device, hal: &mut Hal)
    ensures
        final(hal)@ == pending_kbd_delivery(state.cfg.tud_connected, old(hal)@),
{
    if !state.cfg.tud_connected {
        return;
    }
    let mut report = [0u8; 8];
    if !hal.peek_kbd_report(&mut report) {
        return;
    }
    if hal.is_suspended() {
        hal.remote_wakeup();
    }
    if !hal.hid_ready(ITF_NUM_HID) {
        return;
    }
    let keys = [report[2], report[3], report[4], report[5], report[6], report[7]];
    assert(keys@ =~= report@.subrange(2, 8));
    if hal.send_keyboard_report(1, report[0], keys.as_slice()) {
        hal.pop_kbd_report(&mut report);
    }
}

/// Send one pending mouse report to the host if the endpoint is ready.
pub fn send_pending_mouse(state: &Device, hal: &mut Hal)
    ensures
        final(hal)@ == pending_mouse_delivery(state.cfg.tud_connected, old(hal)@),
{
    if !state.cfg.tud_connected {
        return;
    }
    let mut r = [0u8; 8];
    if !hal.peek_mouse_report(&mut r) {
        return;
    }
    if hal.is_suspended() {
        hal.remote_wakeup();
    }
    if !hal.hid_ready(ITF_NUM_HID) {
        return;
    }
    let x = i16_from_le_bytes(r[1], r[2]);
    let y = i16_from_le_bytes(r[3], r[4]);
    if hal.send_mouse_report(r[7], r[0], x, y, r[5] as i8, r[6] as i8) {
        hal.pop_mouse_report(&mut r);
    }
}

/// Clear every keyboard state and queue an empty report for the host.
pub fn release_all_keys(state: &mut Device, hal: &mut Hal)
    ensures
        final(hal)@ == old(hal)@.push_kbd_report([0u8, 0, 0, 0, 0, 0, 0, 0]),
        *final(state) == released(*old(state)),
{
    release_all_keys_state(state);
    hal.push_kbd_report([0u8, 0, 0, 0, 0, 0, 0, 0]);
}

} // verus!
