//! Pass-through service: the periodic task that brings the device side up
//! with the upstream device's interfaces, the host-side mount and unmount
//! callbacks, the routing of the upstream device's reports, and the
//! SmartShift double-click that switches the output.
use vstd::prelude::*;
use crate::constants::{packet_type_code, PacketType};
use crate::hotkey_handlers::other_output;
use crate::hal::{repeated_call, Hal, HalCall, HalView, HidQueue, OutputControl, PassthroughHal, Timer, UsbHost};
use crate::mouse::{mouse_report_bytes_spec, mouse_report_to_bytes, MouseReport};
use crate::passthrough::{
    activate, capture_descriptor, captured, convert_hidpp_to_mouse, device_to_host_index,
    has_vendor_interface, has_vendor_spec, hidpp_wheel, host_to_device_instance, iface_index, lemma_iface_index,
    is_diverted_buttons, is_hidpp_input_event, is_hidpp_input_spec, is_smartshift_press,
    is_smartshift_press_spec, is_smartshift_release, is_smartshift_release_spec, removed,
    remove_device, smartshift_buf_push, smartshift_reset, sniff_feature_indices, sniffed,
    ss_has_room, ss_pushed, ss_reset, after_hidpp_buttons, entry_views, PassthroughState, PtView,
    SsEntryView, HIDPP_REPORT_ID_SHORT, HIDPP_SWID_DESKHOP, ITF_NUM_PT_BASE, MAX_PASSTHROUGH_IFACES,
    OUT_REPORT_MAX,
};
use crate::service::router::ReportRouter;
use crate::structs::{Device, DeviceConfig, DeviceLed, MouseReportC, LED_BLINK_NONE, LED_BLINK_PT_WAIT};

verus! {

/// Quiet time after the last captured interface before the device side is
/// rebuilt with the captured interfaces.
pub const CAPTURE_STABILIZE_US: u64 = 500_000;
/// Time after which, with no vendor interface upstream, the device side
/// comes up with its own interfaces and late captures are ignored.
pub const ABSOLUTE_TIMEOUT_US: u64 = 10_000_000;
/// Time the device side stays disconnected so the host notices.
pub const RECONNECT_DELAY_US: u64 = 500_000;

/// The length of the SmartShift double-click window.
pub open spec fn ss_window_len(d: Device) -> u64 {
    (d.cfg.config.smartshift_double_click_ms * 1000) as u64
}

/// The events `e` queued for the device side, in order.
pub open spec fn queue_entries(h: HalView, e: Seq<SsEntryView>) -> HalView
    decreases e.len(),
{
    if e.len() == 0 {
        h
    } else {
        queue_entries(h, e.drop_last()).queue_hid_report(e.last().dev_inst, 0, e.last().data)
    }
}

/// The detector holding nothing.
pub open spec fn ss_emptied(v: PtView) -> PtView {
    PtView { smartshift_buf: Seq::empty(), ..v }
}

/// Hand every held-back event to the device side, in the order they came.
fn flush_smartshift_buffer(pt: &mut PassthroughState, hal: &mut Hal)
    requires
        old(pt).wf(),
    ensures
        final(pt).wf(),
        final(pt)@ == ss_emptied(old(pt)@),
        final(hal)@ == queue_entries(old(hal)@, old(pt)@.smartshift_buf),
{
    let ghost buf = old(pt)@.smartshift_buf;
    let mut i: usize = 0;
    while i < pt.smartshift_buf.len()
        invariant
            pt.wf(),
            pt@ == old(pt)@,
            buf == pt@.smartshift_buf,
            i <= buf.len(),
            hal@ == queue_entries(old(hal)@, buf.take(i as int)),
        decreases buf.len() - i,
    {
        let e = &pt.smartshift_buf[i];
        assert(buf[i as int] == e@);
        hal.queue_hid_report(e.dev_inst, 0, e.data.as_slice());
        assert(buf.take(i as int + 1).drop_last() =~= buf.take(i as int));
        i = i + 1;
    }
    assert(buf.take(i as int) =~= buf);
    pt.smartshift_buf = Vec::new();
    pt.smartshift_buf_count = 0;
    assert(entry_views(pt.smartshift_buf@) =~= Seq::<SsEntryView>::empty());
}

/// A state with the output-switch request cleared.
pub open spec fn switch_cleared(d: Device) -> Device {
    Device { cfg: DeviceConfig { switch_requested: false, ..d.cfg }, ..d }
}

/// A state with the LED blink mode replaced.
pub open spec fn with_blink_mode(d: Device, mode: u8) -> Device {
    Device { led: DeviceLed { led_blink_mode: mode, ..d.led }, ..d }
}

/// A state with gaming mode on.
pub open spec fn gaming_on(d: Device) -> Device {
    Device { cfg: DeviceConfig { gaming_mode: true, ..d.cfg }, ..d }
}

/// Whether the captured interfaces have been quiet long enough to bring
/// the device side up with them.
pub open spec fn ready_to_activate(v: PtView, d: Device, now: u64) -> bool {
    &&& d.cfg.config.passthrough_enabled != 0
    &&& !v.active
    &&& !v.gave_up
    &&& v.ifaces.len() > 0
    &&& v.last_capture_us > 0
    &&& now.wrapping_sub(v.last_capture_us) > CAPTURE_STABILIZE_US
}

/// The LED pulses while the host is away.
pub open spec fn led_wait_effect(d: Device) -> Device {
    if !d.cfg.tud_connected { with_blink_mode(d, LED_BLINK_PT_WAIT) } else { d }
}

/// The safety net: with the host away past the time limit and no vendor
/// interface upstream, the device side comes up with the board's own
/// interfaces and pass-through gives up.
pub open spec fn safety_net_effect(v: PtView, d: Device, h: HalView) -> (PtView, HalView) {
    if !v.gave_up && !d.cfg.tud_connected && h.time_us > ABSOLUTE_TIMEOUT_US && !has_vendor_spec(v) {
        (PtView { gave_up: true, ..v }, h.device_connect())
    } else {
        (v, h)
    }
}

/// Activation once the captures have settled: the device-side descriptor
/// is built; when that worked, pass-through goes on, gaming mode with it,
/// and the device side disconnects to come back with the new interfaces.
pub open spec fn activate_effect(v: PtView, d: Device, h: HalView) -> (PtView, Device, HalView) {
    if ready_to_activate(v, d, h.time_us) {
        if !h.pt_build_fails {
            (
                PtView { active: true, reconnect_at_us: (h.time_us + RECONNECT_DELAY_US) as u64, ..v },
                gaming_on(d),
                h.build_config_desc().device_disconnect(),
            )
        } else {
            (v, d, h.build_config_desc())
        }
    } else {
        (v, d, h)
    }
}

/// The LED stops pulsing once the host is there.
pub open spec fn led_stop_effect(d: Device) -> Device {
    if d.cfg.tud_connected && d.led.led_blink_mode == LED_BLINK_PT_WAIT { with_blink_mode(d, LED_BLINK_NONE) } else { d }
}

/// The device-side bring-up of one task run.
#[verifier::opaque]
pub open spec fn bringup_effect(v: PtView, d: Device, h: HalView) -> (PtView, Device, HalView) {
    let d1 = led_wait_effect(d);
    let (v2, h2) = safety_net_effect(v, d1, h);
    let (v3, d3, h3) = activate_effect(v2, d1, h2);
    (v3, led_stop_effect(d3), h3)
}

/// The disconnect an unmount asked for, then the reconnect once its delay
/// is over.
#[verifier::opaque]
pub open spec fn reconnect_effect(v: PtView, h: HalView) -> (PtView, HalView) {
    let now = h.time_us;
    let (v1, h1) = if v.disconnect_requested {
        (
            PtView { disconnect_requested: false, reconnect_at_us: (now + RECONNECT_DELAY_US) as u64, ..v },
            h.clear_config_desc().device_disconnect(),
        )
    } else {
        (v, h)
    };
    if v1.reconnect_at_us > 0 && now >= v1.reconnect_at_us {
        (PtView { reconnect_at_us: 0, ..v1 }, h1.device_connect())
    } else {
        (v1, h1)
    }
}

/// An expired double-click window hands its held-back events on.
#[verifier::opaque]
pub open spec fn expiry_effect(v: PtView, d: Device, h: HalView) -> (PtView, HalView) {
    if v.smartshift_window_us > 0 && h.time_us.wrapping_sub(v.smartshift_window_us) > ss_window_len(d) {
        (PtView { smartshift_window_us: 0, ..ss_emptied(v) }, queue_entries(h, v.smartshift_buf))
    } else {
        (v, h)
    }
}

/// One run of the pass-through task.
pub open spec fn task_effect(v: PtView, d: Device, h: HalView) -> (PtView, Device, HalView) {
    let (d1, h1) = if d.cfg.switch_requested {
        (switch_cleared(d), h.switch_output(other_output(d.cfg.active_output)))
    } else {
        (d, h)
    };
    if d1.cfg.config_mode_active {
        (v, d1, h1)
    } else {
        let (v2, d2, h2) = bringup_effect(v, d1, h1);
        let (v3, h3) = reconnect_effect(v2, h2);
        let (v4, h4) = expiry_effect(v3, d2, h3);
        (v4, d2, h4)
    }
}

fn safety_net(pt: &mut PassthroughState, dev: &Device, hal: &mut Hal)
    requires
        old(pt).wf(),
    ensures
        final(pt).wf(),
        (final(pt)@, final(hal)@) == safety_net_effect(old(pt)@, *dev, old(hal)@),
{
    let now = hal.now_us_64();
    if !pt.gave_up && !dev.cfg.tud_connected && now > ABSOLUTE_TIMEOUT_US && !has_vendor_interface(pt) {
        hal.device_connect();
        pt.gave_up = true;
    }
}

fn try_activate(pt: &mut PassthroughState, dev: &mut Device, hal: &mut Hal)
    requires
        old(pt).wf(),
        old(hal)@.time_us <= u64::MAX - RECONNECT_DELAY_US,
    ensures
        final(pt).wf(),
        (final(pt)@, *final(dev), final(hal)@) == activate_effect(old(pt)@, *old(dev), old(hal)@),
{
    let now = hal.now_us_64();
    if dev.cfg.config.passthrough_enabled != 0 && !pt.active && !pt.gave_up && pt.iface_count > 0
        && pt.last_capture_us > 0 && now.wrapping_sub(pt.last_capture_us) > CAPTURE_STABILIZE_US
    {
        let desc_ready = hal.build_config_desc();
        if activate(pt, desc_ready) {
            dev.cfg.gaming_mode = true;
            hal.device_disconnect();
            pt.reconnect_at_us = now + RECONNECT_DELAY_US;
        }
    }
}

fn bringup(pt: &mut PassthroughState, dev: &mut Device, hal: &mut Hal)
    requires
        old(pt).wf(),
        old(hal)@.time_us <= u64::MAX - RECONNECT_DELAY_US,
    ensures
        final(pt).wf(),
        (final(pt)@, *final(dev), final(hal)@) == bringup_effect(old(pt)@, *old(dev), old(hal)@),
        final(hal)@.time_us == old(hal)@.time_us,
{
    if !dev.cfg.tud_connected && dev.led.led_blink_mode != LED_BLINK_PT_WAIT {
        dev.led.led_blink_mode = LED_BLINK_PT_WAIT;
    }
    assert(*dev == led_wait_effect(*old(dev)));
    proof { reveal(bringup_effect); }
    safety_net(pt, dev, hal);
    try_activate(pt, dev, hal);
    if dev.cfg.tud_connected && dev.led.led_blink_mode == LED_BLINK_PT_WAIT {
        dev.led.led_blink_mode = LED_BLINK_NONE;
    }
}

fn reconnect(pt: &mut PassthroughState, hal: &mut Hal)
    requires
        old(pt).wf(),
        old(hal)@.time_us <= u64::MAX - RECONNECT_DELAY_US,
    ensures
        final(pt).wf(),
        (final(pt)@, final(hal)@) == reconnect_effect(old(pt)@, old(hal)@),
{
    proof { reveal(reconnect_effect); }
    let now = hal.now_us_64();
    if pt.disconnect_requested {
        pt.disconnect_requested = false;
        hal.clear_config_desc();
        hal.device_disconnect();
        pt.reconnect_at_us = now + RECONNECT_DELAY_US;
    }
    if pt.reconnect_at_us > 0 && now >= pt.reconnect_at_us {
        hal.device_connect();
        pt.reconnect_at_us = 0;
    }
}

/// The periodic pass-through task: carry out a requested output switch,
/// then (outside configuration mode) pulse the LED while the host is away,
/// fall back to the board's own interfaces when no vendor interface shows
/// up in time, rebuild the device side once the captures settle, carry out
/// a requested disconnect and the reconnect after it, and hand on the
/// events of an expired double-click window. The pending output report is
/// left for `flush_output_report`.
pub fn passthrough_task(pt: &mut PassthroughState, dev: &mut Device, hal: &mut Hal)
    requires
        old(pt).wf(),
        old(hal)@.time_us <= u64::MAX - RECONNECT_DELAY_US,
    ensures
        final(pt).wf(),
        (final(pt)@, *final(dev), final(hal)@) == task_effect(old(pt)@, *old(dev), old(hal)@),
{
    if dev.cfg.switch_requested {
        dev.cfg.switch_requested = false;
        let new_output: u8 = if dev.cfg.active_output == 0 { 1 } else { 0 };
        OutputControl::switch_output(hal, new_output);
    }
    if dev.cfg.config_mode_active {
        return;
    }
    bringup(pt, dev, hal);
    reconnect(pt, hal);
    expire_window(pt, dev, hal);
}

fn expire_window(pt: &mut PassthroughState, dev: &Device, hal: &mut Hal)
    requires
        old(pt).wf(),
    ensures
        final(pt).wf(),
        (final(pt)@, final(hal)@) == expiry_effect(old(pt)@, *dev, old(hal)@),
{
    proof { reveal(expiry_effect); }
    let now = hal.now_us_64();
    if pt.smartshift_window_us > 0 {
        let window_us: u64 = dev.cfg.config.smartshift_double_click_ms as u64 * 1000;
        if now.wrapping_sub(pt.smartshift_window_us) > window_us {
            flush_smartshift_buffer(pt, hal);
            pt.smartshift_window_us = 0;
        }
    }
}

/// Send the pending output report to the upstream device; the slot is
/// free afterwards whether or not the send went through.
pub fn flush_output_report(pt: &mut PassthroughState, hal: &mut Hal)
    requires
        old(pt).wf(),
    ensures
        final(pt).wf(),
        !old(pt).out_queue.pending ==> final(pt)@ == old(pt)@ && final(hal)@ == old(hal)@,
        old(pt).out_queue.pending ==> final(pt)@ == (PtView {
            out_queue: crate::passthrough::OutQueue { pending: false, ..old(pt).out_queue },
            ..old(pt)@
        }),
        old(pt).out_queue.pending ==> final(hal)@ == old(hal)@.send_set_report(
            old(pt).out_queue.dev_addr,
            old(pt).out_queue.instance,
            old(pt).out_queue.report_id,
            old(pt).out_queue.report_type,
            old(pt).out_queue.data@.subrange(0, old(pt).out_queue.len as int),
        ),
{
    if !pt.out_queue.pending {
        return;
    }
    let data = vstd::slice::slice_subrange(pt.out_queue.data.as_slice(), 0, pt.out_queue.len as usize);
    let _sent = hal.send_set_report(
        pt.out_queue.dev_addr,
        pt.out_queue.instance,
        pt.out_queue.report_id,
        pt.out_queue.report_type,
        data,
    );
    pt.out_queue.pending = false;
}

/// The state after an upstream interface was mounted.
pub open spec fn mount_effect(v: PtView, d: Device, h: HalView, dev_addr: u8, instance: u8, itf_protocol: u8, desc: Seq<u8>) -> PtView {
    if d.cfg.config.passthrough_enabled == 0 {
        v
    } else {
        let v1 = if v.ifaces.len() < MAX_PASSTHROUGH_IFACES { captured(v, dev_addr, instance, itf_protocol, desc) } else { v };
        let v2 = PtView { last_capture_us: h.time_us, ..v1 };
        if v2.upstream_vid == 0 {
            PtView { upstream_vid: h.upstream_ids(dev_addr).0, upstream_pid: h.upstream_ids(dev_addr).1, ..v2 }
        } else {
            v2
        }
    }
}

/// An upstream interface was mounted: when pass-through is enabled,
/// capture it, note the time, and learn the upstream device's ids once.
pub fn on_device_mount(
    pt: &mut PassthroughState,
    dev: &Device,
    dev_addr: u8,
    instance: u8,
    itf_protocol: u8,
    desc: &[u8],
    hal: &Hal,
)
    requires
        old(pt).wf(),
    ensures
        final(pt).wf(),
        final(pt)@ == mount_effect(old(pt)@, *dev, hal@, dev_addr, instance, itf_protocol, desc@),
{
    if dev.cfg.config.passthrough_enabled == 0 {
        return;
    }
    let _ok = capture_descriptor(pt, dev_addr, instance, itf_protocol, desc);
    pt.last_capture_us = hal.now_us_64();
    if pt.upstream_vid == 0 {
        let (vid, pid) = hal.get_upstream_vid_pid(dev_addr);
        pt.upstream_vid = vid;
        pt.upstream_pid = pid;
    }
}

/// The state after an upstream device went away.
pub open spec fn unmount_effect(v: PtView, dev_addr: u8) -> PtView {
    let v1 = removed(v, dev_addr);
    if v.active && v1.ifaces.len() == 0 { PtView { disconnect_requested: true, ..v1 } } else { v1 }
}

/// An upstream device went away: forget its interfaces; when that ends an
/// active pass-through, ask the task to disconnect the device side.
pub fn on_device_unmount(pt: &mut PassthroughState, dev_addr: u8)
    requires
        old(pt).wf(),
    ensures
        final(pt).wf(),
        final(pt)@ == unmount_effect(old(pt)@, dev_addr),
{
    let was_active = pt.active;
    remove_device(pt, dev_addr);
    if was_active && pt.iface_count == 0 {
        pt.disconnect_requested = true;
    }
}

/// What the board does next with a report from the upstream device.
#[derive(Debug)]
pub enum ReportAction {
    /// Pass-through took the report.
    Handled,
    /// The board's own mouse handling takes the report.
    Fallthrough,
}

/// A SmartShift press inside an open double-click window. After a release
/// and in time it completes a double-click: the window closes, what it held
/// is dropped, an output switch is requested and the coming release will be
/// dropped. Too late, it flushes the window and opens a new one. Otherwise
/// it is the same press seen again and is held back too.
#[verifier::opaque]
pub open spec fn ss_press_in_window(v: PtView, d: Device, h: HalView, r: Seq<u8>, dev_inst: u8) -> (PtView, Device, HalView, bool) {
    let now = h.time_us;
    let elapsed = now.wrapping_sub(v.smartshift_window_us);
    if elapsed <= ss_window_len(d) && v.smartshift_saw_release {
        (
            PtView { smartshift_consume: 1, ..ss_reset(v) },
            Device { cfg: DeviceConfig { switch_requested: true, ..d.cfg }, ..d },
            h,
            true,
        )
    } else if elapsed > ss_window_len(d) {
        let v1 = PtView { smartshift_window_us: now, smartshift_saw_release: false, ..ss_emptied(v) };
        let h1 = queue_entries(h, v.smartshift_buf);
        if ss_has_room(v1, r) { (ss_pushed(v1, dev_inst, r), d, h1, true) } else { (ss_reset(v1), d, h1, false) }
    } else if ss_has_room(v, r) {
        (ss_pushed(v, dev_inst, r), d, h, true)
    } else {
        (ss_reset(v), d, queue_entries(h, v.smartshift_buf), false)
    }
}

/// Any other notification inside an open window is held back to keep the
/// order; a SmartShift release is noted. With no room left the detector
/// gives up: what it held goes on and the notification takes the normal way.
#[verifier::opaque]
pub open spec fn ss_other_in_window(v: PtView, h: HalView, r: Seq<u8>, dev_inst: u8) -> (PtView, HalView, bool) {
    let v1 = if is_smartshift_release_spec(r) { PtView { smartshift_saw_release: true, ..v } } else { v };
    if ss_has_room(v1, r) {
        (ss_pushed(v1, dev_inst, r), h, true)
    } else {
        (ss_reset(v1), queue_entries(h, v1.smartshift_buf), false)
    }
}

/// The SmartShift double-click detector on a HID++ notification: the new
/// state and whether the notification was taken (held back or dropped).
/// A release owed to a completed double-click is dropped; a first press
/// opens the window and is held back.
pub open spec fn ss_filter(v: PtView, d: Device, h: HalView, r: Seq<u8>, dev_inst: u8) -> (PtView, Device, HalView, bool) {
    if v.smartshift_consume > 0 && is_smartshift_release_spec(r) {
        (PtView { smartshift_consume: (v.smartshift_consume - 1) as u8, ..v }, d, h, true)
    } else if v.smartshift_window_us > 0 {
        if is_smartshift_press_spec(r) {
            ss_press_in_window(v, d, h, r, dev_inst)
        } else {
            let (v1, h1, taken) = ss_other_in_window(v, h, r, dev_inst);
            (v1, d, h1, taken)
        }
    } else if is_smartshift_press_spec(r) {
        let v1 = PtView { smartshift_window_us: h.time_us, smartshift_saw_release: false, ..v };
        if ss_has_room(v1, r) { (ss_pushed(v1, dev_inst, r), d, h, true) } else { (ss_reset(v1), d, h, false) }
    } else {
        (v, d, h, false)
    }
}

fn press_in_window(pt: &mut PassthroughState, dev: &mut Device, report: &[u8], dev_inst: u8, hal: &mut Hal) -> (taken: bool)
    requires
        old(pt).wf(),
    ensures
        final(pt).wf(),
        (final(pt)@, *final(dev), final(hal)@, taken) == ss_press_in_window(old(pt)@, *old(dev), old(hal)@, report@, dev_inst),
{
    proof { reveal(ss_press_in_window); }
    let now_us = hal.now_us_64();
    let window_us: u64 = dev.cfg.config.smartshift_double_click_ms as u64 * 1000;
    let elapsed = now_us.wrapping_sub(pt.smartshift_window_us);
    if elapsed <= window_us && pt.smartshift_saw_release {
        smartshift_reset(pt);
        pt.smartshift_consume = 1;
        dev.cfg.switch_requested = true;
        return true;
    }
    if elapsed > window_us {
        flush_smartshift_buffer(pt, hal);
        pt.smartshift_window_us = now_us;
        pt.smartshift_saw_release = false;
        if smartshift_buf_push(pt, dev_inst, report) {
            return true;
        }
        smartshift_reset(pt);
        return false;
    }
    if smartshift_buf_push(pt, dev_inst, report) {
        return true;
    }
    flush_smartshift_buffer(pt, hal);
    smartshift_reset(pt);
    false
}

fn other_in_window(pt: &mut PassthroughState, report: &[u8], dev_inst: u8, hal: &mut Hal) -> (taken: bool)
    requires
        old(pt).wf(),
    ensures
        final(pt).wf(),
        (final(pt)@, final(hal)@, taken) == ss_other_in_window(old(pt)@, old(hal)@, report@, dev_inst),
{
    proof { reveal(ss_other_in_window); }
    if is_smartshift_release(report) {
        pt.smartshift_saw_release = true;
    }
    if smartshift_buf_push(pt, dev_inst, report) {
        return true;
    }
    flush_smartshift_buffer(pt, hal);
    smartshift_reset(pt);
    false
}

fn smartshift_filter(pt: &mut PassthroughState, dev: &mut Device, report: &[u8], dev_inst: u8, hal: &mut Hal) -> (taken: bool)
    requires
        old(pt).wf(),
    ensures
        final(pt).wf(),
        (final(pt)@, *final(dev), final(hal)@, taken) == ss_filter(old(pt)@, *old(dev), old(hal)@, report@, dev_inst),
{
    if pt.smartshift_consume > 0 && is_smartshift_release(report) {
        pt.smartshift_consume = pt.smartshift_consume - 1;
        return true;
    }
    if pt.smartshift_window_us > 0 {
        if is_smartshift_press(report) {
            return press_in_window(pt, dev, report, dev_inst, hal);
        }
        return other_in_window(pt, report, dev_inst, hal);
    }
    if is_smartshift_press(report) {
        let now_us = hal.now_us_64();
        pt.smartshift_window_us = now_us;
        pt.smartshift_saw_release = false;
        if smartshift_buf_push(pt, dev_inst, report) {
            return true;
        }
        smartshift_reset(pt);
    }
    false
}

/// A relative mouse report holding only buttons and wheel.
pub open spec fn relative_report(buttons: u8, wheel: i8) -> MouseReport {
    MouseReport { buttons, x: 0, y: 0, wheel, pan: 0, mode: 1 }
}

/// A vendor-interface report that the detector did not take: on the active
/// output (or when it is no notification) it goes to the device side as it
/// is; otherwise its buttons or wheel go to the peer as a mouse report.
pub open spec fn forward_effect(v: PtView, d: Device, h: HalView, r: Seq<u8>, dev_inst: u8) -> (PtView, Device, HalView) {
    if !is_hidpp_input_spec(r) || d.is_active_output_spec() {
        (v, d, h.queue_hid_report(dev_inst, 0, r))
    } else {
        let v1 = after_hidpp_buttons(v, r);
        let code = packet_type_code(PacketType::MouseReport);
        if v1.hidpp_disc.button_state != v.hidpp_disc.button_state {
            (v1, d, h.send_packet(mouse_report_bytes_spec(relative_report(v1.hidpp_disc.button_state, 0))@, code))
        } else if !is_diverted_buttons(v.hidpp_disc, r) && hidpp_wheel(v.hidpp_disc, r).is_some() {
            (v1, d, h.send_packet(mouse_report_bytes_spec(relative_report(0, hidpp_wheel(v.hidpp_disc, r).unwrap()))@, code))
        } else {
            (v1, d, h)
        }
    }
}

fn forward_vendor(pt: &mut PassthroughState, dev: &mut Device, report: &[u8], dev_inst: u8, hal: &mut Hal)
    requires
        old(pt).wf(),
    ensures
        final(pt).wf(),
        (final(pt)@, *final(dev), final(hal)@) == forward_effect(old(pt)@, *old(dev), old(hal)@, report@, dev_inst),
{
    let is_input = is_hidpp_input_event(report);
    if !is_input || dev.is_active_output() {
        hal.queue_hid_report(dev_inst, 0, report);
        return;
    }
    let prev_btn = pt.hidpp_disc.button_state;
    let mut mouse = MouseReportC { buttons: 0, x: 0, y: 0, wheel: 0, pan: 0, mode: 0 };
    let converted = convert_hidpp_to_mouse(pt, report, &mut mouse);
    if pt.hidpp_disc.button_state != prev_btn {
        let m = MouseReport { buttons: pt.hidpp_disc.button_state, x: 0, y: 0, wheel: 0, pan: 0, mode: 1 };
        let bytes = mouse_report_to_bytes(&m);
        hal.route_mouse(dev, bytes);
    } else if converted {
        let m = MouseReport { buttons: mouse.buttons, x: mouse.x, y: mouse.y, wheel: mouse.wheel, pan: mouse.pan, mode: 1 };
        let bytes = mouse_report_to_bytes(&m);
        hal.route_mouse(dev, bytes);
    }
}

/// A report on a vendor interface: answers to this board's own HID++
/// requests are dropped, notifications go through the double-click
/// detector, and what it leaves is forwarded. The report is always taken.
pub open spec fn vendor_effect(v: PtView, d: Device, h: HalView, r: Seq<u8>, dev_inst: u8) -> (PtView, Device, HalView) {
    if r.len() >= 7 && r[3] & 0x0F == HIDPP_SWID_DESKHOP {
        (v, d, h)
    } else {
        let (v1, d1, h1, taken) = if is_hidpp_input_spec(r) { ss_filter(v, d, h, r, dev_inst) } else { (v, d, h, false) };
        if taken {
            (v1, d1, h1)
        } else {
            forward_effect(v1, d1, h1, r, dev_inst)
        }
    }
}

/// What a report from the upstream device does, and whether pass-through
/// took it.
pub open spec fn report_effect(v: PtView, d: Device, h: HalView, r: Seq<u8>, dev_addr: u8, instance: u8) -> (PtView, Device, HalView, ReportAction) {
    if !v.active || d.cfg.config_mode_active {
        (v, d, h, ReportAction::Fallthrough)
    } else if !d.cfg.tud_connected {
        (v, d, h.receive_report(dev_addr, instance), ReportAction::Handled)
    } else {
        match iface_index(v.ifaces, dev_addr, instance) {
            None => (v, d, h, ReportAction::Fallthrough),
            Some(i) => {
                let dev_inst = (ITF_NUM_PT_BASE + i) as u8;
                if v.ifaces[i].always_passthrough {
                    let (v1, d1, h1) = vendor_effect(v, d, h, r, dev_inst);
                    (v1, d1, h1.receive_report(dev_addr, instance), ReportAction::Handled)
                } else if d.is_active_output_spec() {
                    (v, d, h.queue_hid_report(dev_inst, 0, r).receive_report(dev_addr, instance), ReportAction::Handled)
                } else {
                    (v, d, h.receive_report(dev_addr, instance), ReportAction::Fallthrough)
                }
            },
        }
    }
}

/// A report from the upstream device. Outside pass-through it is left to
/// the board; while the device side re-enumerates it is dropped; on a
/// vendor interface it goes through the double-click detector and is
/// forwarded (to the peer, as a mouse report, when the other output is
/// active); on another interface it is forwarded when this board drives
/// the active output and left to the board otherwise.
pub fn on_report_received(
    pt: &mut PassthroughState,
    dev: &mut Device,
    report: &[u8],
    dev_addr: u8,
    instance: u8,
    hal: &mut Hal,
) -> (action: ReportAction)
    requires
        old(pt).wf(),
    ensures
        final(pt).wf(),
        (final(pt)@, *final(dev), final(hal)@, action) == report_effect(old(pt)@, *old(dev), old(hal)@, report@, dev_addr, instance),
{
    if !pt.active || dev.cfg.config_mode_active {
        return ReportAction::Fallthrough;
    }
    if !dev.cfg.tud_connected {
        hal.receive_report(dev_addr, instance);
        return ReportAction::Handled;
    }
    let dev_inst = match host_to_device_instance(pt, dev_addr, instance) {
        Some(di) => di,
        None => return ReportAction::Fallthrough,
    };
    proof { lemma_iface_index(pt@.ifaces, dev_addr, instance); }
    let idx = (dev_inst - ITF_NUM_PT_BASE) as usize;
    if pt.ifaces[idx].always_passthrough {
        if report.len() >= 7 && (report[3] & 0x0F) == HIDPP_SWID_DESKHOP {
            hal.receive_report(dev_addr, instance);
            return ReportAction::Handled;
        }
        if is_hidpp_input_event(report) {
            if smartshift_filter(pt, dev, report, dev_inst, hal) {
                hal.receive_report(dev_addr, instance);
                return ReportAction::Handled;
            }
        }
        forward_vendor(pt, dev, report, dev_inst, hal);
        hal.receive_report(dev_addr, instance);
        return ReportAction::Handled;
    }
    if dev.is_active_output() {
        hal.queue_hid_report(dev_inst, 0, report);
        hal.receive_report(dev_addr, instance);
        return ReportAction::Handled;
    }
    hal.receive_report(dev_addr, instance);
    ReportAction::Fallthrough
}

/// Whether a request to the upstream device can teach feature indices: a
/// short HID++ request to a paired device, from host software.
pub open spec fn sniffable(report_id: u8, b: Seq<u8>) -> bool {
    report_id == HIDPP_REPORT_ID_SHORT && b.len() >= 4 && 1 <= b[0] <= 6 && b[2] & 0x0F != 0
}

/// An output report from the host for a passed-through interface: kept for
/// `flush_output_report` (replacing any report still pending) and, when it
/// is a HID++ request, read for feature indices. Ignored for an interface
/// that is not passed through and for a report longer than the slot.
pub fn on_set_report(pt: &mut PassthroughState, instance: u8, report_id: u8, report_type: u8, buffer: &[u8])
    requires
        old(pt).wf(),
    ensures
        final(pt).wf(),
        !(ITF_NUM_PT_BASE <= instance && instance - ITF_NUM_PT_BASE < old(pt)@.ifaces.len() && buffer@.len() <= OUT_REPORT_MAX)
            ==> final(pt)@ == old(pt)@,
        ITF_NUM_PT_BASE <= instance && instance - ITF_NUM_PT_BASE < old(pt)@.ifaces.len() && buffer@.len() <= OUT_REPORT_MAX
            ==> final(pt)@ == (PtView {
                out_queue: final(pt).out_queue,
                hidpp_disc: if sniffable(report_id, buffer@) { sniffed(old(pt).hidpp_disc, buffer@) } else { old(pt).hidpp_disc },
                ..old(pt)@
            }) && final(pt).out_queue.pending
                && final(pt).out_queue.dev_addr == old(pt)@.ifaces[instance - ITF_NUM_PT_BASE].dev_addr
                && final(pt).out_queue.instance == old(pt)@.ifaces[instance - ITF_NUM_PT_BASE].instance
                && final(pt).out_queue.report_id == report_id
                && final(pt).out_queue.report_type == report_type
                && final(pt).out_queue.len == buffer@.len()
                && final(pt).out_queue.data@ == buffer@ + old(pt).out_queue.data@.subrange(buffer@.len() as int, 64),
{
    let idx = match device_to_host_index(pt, instance) {
        Some(i) => i as usize,
        None => return,
    };
    if buffer.len() > OUT_REPORT_MAX {
        return;
    }
    pt.out_queue.dev_addr = pt.ifaces[idx].dev_addr;
    pt.out_queue.instance = pt.ifaces[idx].instance;
    pt.out_queue.report_id = report_id;
    pt.out_queue.report_type = report_type;
    pt.out_queue.len = buffer.len() as u16;
    let ghost old_data = pt.out_queue.data@;
    let mut k: usize = 0;
    while k < buffer.len()
        invariant
            k <= buffer@.len() <= OUT_REPORT_MAX,
            pt.out_queue.data@.len() == 64,
            forall|j: int| 0 <= j < k ==> pt.out_queue.data@[j] == buffer@[j],
            forall|j: int| k <= j < 64 ==> pt.out_queue.data@[j] == old_data[j],
            pt.out_queue.dev_addr == old(pt)@.ifaces[idx as int].dev_addr,
            pt.out_queue.instance == old(pt)@.ifaces[idx as int].instance,
            pt.out_queue.report_id == report_id,
            pt.out_queue.report_type == report_type,
            pt.out_queue.len == buffer@.len(),
            pt.out_queue.pending == old(pt).out_queue.pending,
            pt.wf(),
            pt@ == (PtView { out_queue: pt.out_queue, ..old(pt)@ }),
        decreases buffer@.len() - k,
    {
        pt.out_queue.data[k] = buffer[k];
        k = k + 1;
    }
    assert(pt.out_queue.data@ =~= buffer@ + old_data.subrange(buffer@.len() as int, 64));
    pt.out_queue.pending = true;
    if report_id == HIDPP_REPORT_ID_SHORT && buffer.len() >= 4 {
        let device_idx = buffer[0];
        if 1 <= device_idx && device_idx <= 6 && (buffer[2] & 0x0F) != 0 {
            sniff_feature_indices(&mut pt.hidpp_disc, buffer);
        }
    }
}


/// The boundary at another time.
pub open spec fn at_time(h: HalView, t: u64) -> HalView {
    HalView { time_us: t, ..h }
}

/// Handing on held-back events queues them for the device side after what
/// was queued before, in the order they arrived, and changes nothing else.
pub proof fn lemma_flush_keeps_order(h: HalView, e: Seq<SsEntryView>)
    ensures
        queue_entries(h, e).hid_queued == h.hid_queued + e.map_values(|x: SsEntryView| (x.dev_inst, 0u8, x.data)),
        queue_entries(h, e) == (HalView {
            hid_queued: queue_entries(h, e).hid_queued,
            calls: h.calls + repeated_call(HalCall::QueueHidReport, e.len()),
            ..h
        }),
    decreases e.len(),
{
    if e.len() > 0 {
        lemma_flush_keeps_order(h, e.drop_last());
        assert(h.calls + repeated_call(HalCall::QueueHidReport, e.len()) =~= (h.calls
            + repeated_call(HalCall::QueueHidReport, (e.len() - 1) as nat)).push(HalCall::QueueHidReport));
        assert(e.map_values(|x: SsEntryView| (x.dev_inst, 0u8, x.data)) =~= e.drop_last().map_values(
            |x: SsEntryView| (x.dev_inst, 0u8, x.data),
        ).push((e.last().dev_inst, 0u8, e.last().data)));
    } else {
        assert(e.map_values(|x: SsEntryView| (x.dev_inst, 0u8, x.data)) =~= Seq::<(u8, u8, Seq<u8>)>::empty());
        assert(h.hid_queued + Seq::<(u8, u8, Seq<u8>)>::empty() =~= h.hid_queued);
        assert(h.calls + repeated_call(HalCall::QueueHidReport, 0) =~= h.calls);
    }
}

/// The detector at rest: no window, no release owed, nothing held.
pub open spec fn ss_at_rest(v: PtView) -> bool {
    v.smartshift_window_us == 0 && v.smartshift_consume == 0 && v.smartshift_buf.len() == 0
}

/// Three notifications in a row through the detector, at three times: the
/// state after them and whether it took all three.
pub open spec fn three_through_detector(
    v: PtView, d: Device, h: HalView, r1: Seq<u8>, r2: Seq<u8>, r3: Seq<u8>, inst: u8, t1: u64, t2: u64, t3: u64,
) -> (PtView, Device, HalView, bool) {
    let (v1, d1, h1, a1) = ss_filter(v, d, at_time(h, t1), r1, inst);
    let (v2, d2, h2, a2) = ss_filter(v1, d1, at_time(h1, t2), r2, inst);
    let (v3, d3, h3, a3) = ss_filter(v2, d2, at_time(h2, t3), r3, inst);
    (v3, d3, h3, a1 && a2 && a3)
}

/// A double-click on the SmartShift button (press, release, press, the
/// second press within the window of the first) with the detector at rest
/// asks for an output switch, owes the coming release a drop, leaves the
/// detector otherwise at rest, and hands none of the three to the host.
pub proof fn lemma_double_click_switches(
    v: PtView, d: Device, h: HalView, press: Seq<u8>, release: Seq<u8>, inst: u8, t1: u64, t2: u64, t3: u64,
)
    requires
        ss_at_rest(v),
        is_smartshift_press_spec(press),
        is_smartshift_release_spec(release),
        press.len() <= crate::passthrough::SS_EVENT_MAX,
        release.len() <= crate::passthrough::SS_EVENT_MAX,
        0 < t1 <= t2 <= t3,
        t3 - t1 <= ss_window_len(d),
    ensures
        three_through_detector(v, d, h, press, release, press, inst, t1, t2, t3).3,
        three_through_detector(v, d, h, press, release, press, inst, t1, t2, t3).1.cfg.switch_requested,
        three_through_detector(v, d, h, press, release, press, inst, t1, t2, t3).0.smartshift_consume == 1,
        three_through_detector(v, d, h, press, release, press, inst, t1, t2, t3).0.smartshift_window_us == 0,
        three_through_detector(v, d, h, press, release, press, inst, t1, t2, t3).0.smartshift_buf.len() == 0,
        three_through_detector(v, d, h, press, release, press, inst, t1, t2, t3).2.hid_queued == h.hid_queued,
{
    reveal(ss_press_in_window);
    reveal(ss_other_in_window);
}

/// Two SmartShift presses with no release between them are one actuation
/// seen twice: no switch is asked for, the window stays open from the first
/// press, and neither reaches the host yet.
pub proof fn lemma_repeated_press_does_not_switch(
    v: PtView, d: Device, h: HalView, press: Seq<u8>, inst: u8, t1: u64, t2: u64,
)
    requires
        ss_at_rest(v),
        !d.cfg.switch_requested,
        is_smartshift_press_spec(press),
        press.len() <= crate::passthrough::SS_EVENT_MAX,
        0 < t1 <= t2,
        t2 - t1 <= ss_window_len(d),
    ensures
        ({
            let (v1, d1, h1, a1) = ss_filter(v, d, at_time(h, t1), press, inst);
            let (v2, d2, h2, a2) = ss_filter(v1, d1, at_time(h1, t2), press, inst);
            a1 && a2 && !d2.cfg.switch_requested && v2.smartshift_window_us == t1 && !v2.smartshift_saw_release
                && h2.hid_queued == h.hid_queued
        }),
{
    reveal(ss_press_in_window);
}

/// A single click (press, then release inside the window) is held back and,
/// once the window has run out, reaches the host whole and in order; the
/// detector is back at rest.
pub proof fn lemma_single_click_delivered_in_order(
    v: PtView, d: Device, h: HalView, press: Seq<u8>, release: Seq<u8>, inst: u8, t1: u64, t2: u64, t3: u64,
)
    requires
        ss_at_rest(v),
        is_smartshift_press_spec(press),
        is_smartshift_release_spec(release),
        press.len() <= crate::passthrough::SS_EVENT_MAX,
        release.len() <= crate::passthrough::SS_EVENT_MAX,
        0 < t1 <= t2 <= t3,
        t2 - t1 <= ss_window_len(d),
        t3 - t1 > ss_window_len(d),
    ensures
        ({
            let (v1, d1, h1, a1) = ss_filter(v, d, at_time(h, t1), press, inst);
            let (v2, d2, h2, a2) = ss_filter(v1, d1, at_time(h1, t2), release, inst);
            let (v3, h3) = expiry_effect(v2, d2, at_time(h2, t3));
            a1 && a2 && ss_at_rest(v3)
                && h3.hid_queued == h.hid_queued + seq![(inst, 0u8, press), (inst, 0u8, release)]
        }),
{
    reveal(ss_press_in_window);
    reveal(ss_other_in_window);
    reveal(expiry_effect);
    let (v1, d1, h1, a1) = ss_filter(v, d, at_time(h, t1), press, inst);
    let (v2, d2, h2, a2) = ss_filter(v1, d1, at_time(h1, t2), release, inst);
    lemma_flush_keeps_order(at_time(h2, t3), v2.smartshift_buf);
    assert(v2.smartshift_buf.map_values(|x: SsEntryView| (x.dev_inst, 0u8, x.data)) =~= seq![(inst, 0u8, press), (inst, 0u8, release)]);
}

} // verus!
