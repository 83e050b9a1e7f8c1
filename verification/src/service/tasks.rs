//! Periodic tasks: system health, the outbound packet queue, the HID
//! report queue, the screensaver, the board LED and the heartbeat.
use vstd::prelude::*;
use crate::blink::{blink_step, blink_step_spec, BlinkAction};
use crate::constants::{packet_type_code, PacketType};
use crate::hal::{DmaRx, HalView, Hal, HidQueue, Indicator, OutputControl, PeerLink, ReportQueue, Timer, Transfer, UsbDevice, Watchdog};
use crate::packet::{get_ptr_delta, ptr_delta, packet_bytes, DMA_RX_BUFFER_SIZE, build_heartbeat_payload, heartbeat_payload, packet_from_bytes, raw_packet_bytes, write_raw_packet, UartPacket};
use crate::bytes::u32_from_le_bytes;
use crate::packet::{packet_meaning, process_packet};
use crate::service::config_api::CONFIG_MODE_TIMEOUT_US;
use crate::service::packet_dispatch::{dispatch_packet, dispatch_post, packet_address};
use crate::service::peer_log::PeerLog;
use crate::screensaver::{should_activate, should_activate_spec, ScreensaverConfig};
use crate::structs::{Device, DeviceConfig, DeviceLed, LED_BLINK_PT_WAIT};

verus! {

/// How long the second core may go without a loop pass.
pub const CORE1_HANG_TIMEOUT_US: u64 = 500_000;

/// Whether the system is healthy: no reboot pending and the second core
/// made a loop pass within the timeout (wrapping time difference).
pub open spec fn system_healthy(s: Device, now: u64) -> bool {
    !s.fw.reboot_requested && ((now as int - s.cfg.core1_last_loop_pass as int) % 0x1_0000_0000_0000_0000) < CORE1_HANG_TIMEOUT_US
}

/// Check the health of the system and refresh the watchdog if it is healthy.
pub fn check_system_health(state: &Device, hal: &mut Hal) -> (r: bool)
    ensures
        r == system_healthy(*state, old(hal)@.time_us),
        final(hal)@ == (if r { old(hal)@.kick() } else { old(hal)@ }),
{
    if state.fw.reboot_requested {
        return false;
    }
    let now = hal.now_us_64();
    let gap = now.wrapping_sub(state.cfg.core1_last_loop_pass);
    if gap < CORE1_HANG_TIMEOUT_US {
        hal.kick();
        return true;
    }
    false
}

/// Send the oldest queued packet, framed, unless the line is busy (with
/// the line idle the queue is asked even when it is empty).
pub open spec fn flush_effect(h: HalView) -> HalView {
    if h.tx_busy {
        h
    } else if h.outbound_queue_in.len() == 0 {
        h.dequeue()
    } else {
        let b = h.outbound_queue_in[0];
        let p = UartPacket { ptype: b[0], data: [b[1], b[2], b[3], b[4], b[5], b[6], b[7], b[8]], checksum: b[9] };
        h.dequeue().transmit(raw_packet_bytes(p)@)
    }
}

/// Send one pending outbound packet if the line is idle.
pub fn flush_outbox(hal: &mut Hal)
    ensures
        final(hal)@ == flush_effect(old(hal)@),
{
    if hal.is_busy() {
        return;
    }
    let mut pkt_bytes = [0u8; 10];
    if !hal.dequeue(&mut pkt_bytes) {
        return;
    }
    let pkt = packet_from_bytes(&pkt_bytes);
    let raw = write_raw_packet(&pkt);
    proof {
        let b = old(hal)@.outbound_queue_in[0];
        assert(pkt == UartPacket { ptype: b[0], data: [b[1], b[2], b[3], b[4], b[5], b[6], b[7], b[8]], checksum: b[9] })
            by {
            assert(pkt.data =~= [b[1], b[2], b[3], b[4], b[5], b[6], b[7], b[8]]);
        }
    }
    hal.transmit(&raw);
}

/// Most report bytes a queued HID packet carries.
pub const HID_REPORT_DATA_MAX: usize = 32;

/// Sending the oldest queued HID report: its bytes are the instance, the
/// report id, a type, a length and the data (at most 32 bytes); it leaves
/// the queue only when sent.
pub open spec fn hid_queue_effect(h: HalView) -> (HalView, bool) {
    if h.hid_queue_in.len() == 0 {
        (h, false)
    } else {
        let b = h.hid_queue_in[0];
        let n = if b[3] < 32 { b[3] as int } else { 32 };
        if !h.hid_ready(b[0]) {
            (h, false)
        } else if h.usb_send_ok {
            (h.send_hid_report(b[0], b[1], b@.subrange(4, 4 + n)).pop_hid_report(), true)
        } else {
            (h.send_hid_report(b[0], b[1], b@.subrange(4, 4 + n)), false)
        }
    }
}

/// Send one pending HID report if its endpoint is ready; tell whether one was sent.
pub fn process_hid_queue(hal: &mut Hal) -> (sent: bool)
    ensures
        (final(hal)@, sent) == hid_queue_effect(old(hal)@),
{
    let mut buf = [0u8; 36];
    if !hal.peek_hid_report(&mut buf) {
        return false;
    }
    let instance = buf[0];
    let report_id = buf[1];
    let len = buf[3] as usize;
    let n: usize = if len < HID_REPORT_DATA_MAX { len } else { HID_REPORT_DATA_MAX };
    let data = vstd::slice::slice_subrange(buf.as_slice(), 4, 4 + n);
    if !hal.hid_ready(instance) {
        return false;
    }
    if hal.send_hid_report(instance, report_id, data) {
        hal.pop_hid_report(&mut buf);
        return true;
    }
    false
}

/// The screensaver settings of an output as the decision takes them.
pub open spec fn screensaver_config_of(s: Device, role: int) -> ScreensaverConfig {
    let ss = s.cfg.config.output[role].screensaver;
    ScreensaverConfig { mode: ss.mode, only_if_inactive: ss.only_if_inactive != 0, idle_time_us: ss.idle_time_us, max_time_us: ss.max_time_us }
}

/// One screensaver tick: when it is due, the given pointer report goes to
/// the host and the time of the move is returned.
pub open spec fn screensaver_effect(s: Device, h: HalView, last_pointer_move: u32, report: [u8; 8]) -> (HalView, Option<u32>) {
    let role = s.cfg.board_role as int;
    if role >= 2 {
        (h, None)
    } else {
        let cfg = screensaver_config_of(s, role);
        if !should_activate_spec(cfg, (h.time_us - s.cfg.last_activity[role]) as u64, s.is_active_output_spec(), h.usb_ready,
            last_pointer_move, h.time_us as u32) || (cfg.mode != 1 && cfg.mode != 2) {
            (h, None)
        } else {
            (h.push_mouse_report(report), Some(h.time_us as u32))
        }
    }
}

/// Run one screensaver tick.
pub fn screensaver_tick(state: &Device, hal: &mut Hal, last_pointer_move: u32, report_bytes: &[u8; 8]) -> (r: Option<u32>)
    requires
        state.cfg.board_role < 2 ==> state.cfg.last_activity[state.cfg.board_role as int] <= old(hal)@.time_us,
    ensures
        (final(hal)@, r) == screensaver_effect(*state, old(hal)@, last_pointer_move, *report_bytes),
{
    let role = state.cfg.board_role as usize;
    if role >= 2 {
        return None;
    }
    let ss = state.cfg.config.output[role].screensaver;
    let inactivity = hal.now_us_64() - state.cfg.last_activity[role];
    let current_time = hal.now_us_32();
    let cfg = ScreensaverConfig {
        mode: ss.mode,
        only_if_inactive: ss.only_if_inactive != 0,
        idle_time_us: ss.idle_time_us,
        max_time_us: ss.max_time_us,
    };
    if !should_activate(&cfg, inactivity, state.is_active_output(), hal.is_ready(), last_pointer_move, current_time) {
        return None;
    }
    if ss.mode != 1 && ss.mode != 2 {
        return None;
    }
    hal.push_mouse_report(*report_bytes);
    Some(hal.now_us_32())
}

/// Window after a HID report during which the active LED flickers.
pub const HID_ACTIVITY_US: u32 = 60_000;
/// Period of the activity flicker.
pub const FLICKER_PERIOD_US: u32 = 60_000;
/// Off part of each flicker period.
pub const FLICKER_OFF_US: u32 = 15_000;

/// Wrapping difference of two 32-bit times.
pub open spec fn elapsed32(now: u32, then: u32) -> int {
    (now as int - then as int) % 0x1_0000_0000
}

/// The steady indication: the active board's LED on (flickering while HID
/// reports flow), the other board's off.
pub open spec fn steady_led(s: Device, h: HalView, now: u32) -> HalView {
    if s.is_active_output_spec() {
        if elapsed32(now, s.cfg.last_hid_activity_us) < HID_ACTIVITY_US {
            h.set_board_led(now % FLICKER_PERIOD_US >= FLICKER_OFF_US)
        } else {
            h.set_board_led(true)
        }
    } else {
        h.set_board_led(false)
    }
}

/// This state with the LED's blink bookkeeping replaced.
pub open spec fn with_led(s: Device, blinks_left: i32, last: i32) -> Device {
    Device { led: DeviceLed { blinks_left, last_led_change: last, ..s.led }, ..s }
}

/// The LED step after a pending resync, by blink mode.
pub open spec fn led_mode_effect(s: Device, h: HalView, now: u32) -> (Device, HalView) {
    if s.led.led_blink_mode == LED_BLINK_PT_WAIT {
        let is_on = s.cfg.onboard_led_state;
        let threshold: int = if is_on { 50_000 } else { 450_000 };
        if elapsed32(now, s.led.last_led_change as u32) >= threshold {
            (Device { cfg: DeviceConfig { onboard_led_state: !is_on, ..s.cfg }, led: DeviceLed { last_led_change: now as i32, ..s.led }, ..s }, h.toggle())
        } else {
            (s, h)
        }
    } else {
        match blink_step_spec(s.led.blinks_left, s.led.last_led_change, now) {
            BlinkAction::Idle => (s, steady_led(s, h, now)),
            BlinkAction::Wait => (s, h),
            BlinkAction::Toggle => {
                let h1 = h.toggle();
                (with_led(s, (s.led.blinks_left - 1) as i32, now as i32),
                    if s.cfg.keyboard_connected { h1.set_keyboard_leds(if h1.board_led { 7u8 } else { 0u8 }) } else { h1 })
            },
            BlinkAction::ToggleAndRestore => (with_led(s, (s.led.blinks_left - 1) as i32, now as i32), h.toggle().sync_leds()),
        }
    }
}

/// One LED tick: nothing while the boot indication owns the LED; a
/// keyboard LED resync asked for elsewhere is done first.
pub open spec fn led_blink_effect(s: Device, h: HalView) -> (Device, HalView) {
    if s.led.boot_led_owned {
        (s, h)
    } else {
        let (s1, h1) = if s.cfg.leds_resync_pending {
            (Device { cfg: DeviceConfig { leds_resync_pending: false, ..s.cfg }, ..s }, h.sync_leds())
        } else {
            (s, h)
        };
        led_mode_effect(s1, h1, h.time_us as u32)
    }
}

fn led_mode_step(state: &mut Device, hal: &mut Hal, now: u32)
    ensures
        (*final(state), final(hal)@) == led_mode_effect(*old(state), old(hal)@, now),
{
    if state.led.led_blink_mode == LED_BLINK_PT_WAIT {
        let elapsed = now.wrapping_sub(state.led.last_led_change as u32);
        let is_on = state.cfg.onboard_led_state;
        let threshold: u32 = if is_on { 50_000 } else { 450_000 };
        if elapsed >= threshold {
            hal.toggle();
            state.cfg.onboard_led_state = !is_on;
            state.led.last_led_change = now as i32;
        }
        return;
    }
    match blink_step(state.led.blinks_left, state.led.last_led_change, now) {
        BlinkAction::Idle => {
            if state.is_active_output() {
                if now.wrapping_sub(state.cfg.last_hid_activity_us) < HID_ACTIVITY_US {
                    hal.set_board_led((now % FLICKER_PERIOD_US) >= FLICKER_OFF_US);
                } else {
                    hal.set_board_led(true);
                }
            } else {
                hal.set_board_led(false);
            }
        },
        BlinkAction::Wait => {},
        BlinkAction::Toggle => {
            let led_on = hal.toggle();
            if state.cfg.keyboard_connected {
                hal.set_keyboard_leds(if led_on { 0x07 } else { 0x00 });
            }
            state.led.blinks_left = state.led.blinks_left - 1;
            state.led.last_led_change = now as i32;
        },
        BlinkAction::ToggleAndRestore => {
            hal.toggle();
            state.led.blinks_left = state.led.blinks_left - 1;
            state.led.last_led_change = now as i32;
            hal.sync_leds();
        },
    }
}

/// Run one step of the board LED.
pub fn led_blink_tick(state: &mut Device, hal: &mut Hal)
    ensures
        (*final(state), final(hal)@) == led_blink_effect(*old(state), old(hal)@),
{
    if state.led.boot_led_owned {
        return;
    }
    if state.cfg.leds_resync_pending {
        state.cfg.leds_resync_pending = false;
        hal.sync_leds();
    }
    let now = hal.now_us_32();
    led_mode_step(state, hal, now);
}

/// The heartbeat packet in its queued form: type, payload, no checksum yet.
pub open spec fn heartbeat_packet(s: Device) -> [u8; 10] {
    let p = heartbeat_payload(s.fw.running_fw.version, s.fw.running_fw.checksum as u16, s.cfg.active_output);
    [packet_type_code(PacketType::Heartbeat), p[0], p[1], p[2], p[3], p[4], p[5], p[6], p[7], 0]
}

/// One heartbeat tick: silent during an upgrade; the boot-select button
/// reboots into the boot loader; configuration mode blinks and ends in a
/// reboot once its time is up; otherwise the heartbeat is queued.
pub open spec fn heartbeat_effect(s: Device, h: HalView) -> HalView {
    if s.fw.fw.upgrade_in_progress {
        h
    } else if h.bootsel_pressed {
        h.reboot_to_bootloader()
    } else if s.cfg.config_mode_active && h.time_us > s.cfg.config_mode_timer {
        h.reboot()
    } else {
        let h1 = if s.cfg.config_mode_active { h.blink() } else { h };
        h1.enqueue(heartbeat_packet(s))
    }
}

/// Send the heartbeat and handle the end of configuration mode.
pub fn heartbeat_tick(state: &Device, hal: &mut Hal)
    ensures
        final(hal)@ == heartbeat_effect(*state, old(hal)@),
{
    if state.fw.fw.upgrade_in_progress {
        return;
    }
    if hal.is_bootsel_pressed() {
        hal.reboot_to_bootloader();
        return;
    }
    if state.cfg.config_mode_active {
        if hal.now_us_64() > state.cfg.config_mode_timer {
            hal.reboot();
            return;
        }
        hal.blink();
    }
    let version = state.fw.running_fw.version;
    let crc16 = state.fw.running_fw.checksum as u16;
    let p = build_heartbeat_payload(version, crc16, state.cfg.active_output);
    let pkt = [PacketType::Heartbeat.to_u8(), p[0], p[1], p[2], p[3], p[4], p[5], p[6], p[7], 0];
    assert(pkt =~= heartbeat_packet(*state));
    hal.enqueue(pkt);
}


/// Scanning the receive ring with `d` unread bytes: the first preamble
/// with a whole packet behind it gives the packet and the ring past it;
/// bytes before a preamble are skipped; fewer than a raw packet's bytes
/// wait for the next time.
pub open spec fn rx_scan(h: HalView, d: u32) -> (HalView, Option<Seq<u8>>)
    decreases d,
{
    if (d as int) < crate::constants::RAW_PACKET_LENGTH {
        (h, None)
    } else if h.rx_start() {
        (h.rx_advance_n(12), Some(h.rx_packet_bytes()))
    } else {
        rx_scan(h.rx_advance(), (d - 1) as u32)
    }
}

/// The packet in ten received bytes.
pub open spec fn packet_of(b: Seq<u8>) -> UartPacket {
    UartPacket { ptype: b[0], data: [b[1], b[2], b[3], b[4], b[5], b[6], b[7], b[8]], checksum: b[9] }
}

/// A firmware word for the very end of the address space, answering the
/// transfer in progress, cannot be taken: it is dropped.
pub open spec fn word_out_of_range(s: Device, p: UartPacket) -> bool {
    packet_meaning(p) == Ok::<PacketType, crate::packet::PacketError>(PacketType::ResponseByte)
        && packet_address(p) == s.fw.fw.address && packet_address(p) > u32::MAX - 4
}

/// Take at most one packet from the receive ring and dispatch it. Tells
/// whether a packet was found.
pub fn packet_receive_tick(state: &mut Device, hal: &mut Hal, log: &mut PeerLog) -> (found: bool)
    requires
        old(log).wf(),
        old(hal)@.time_us <= u64::MAX - CONFIG_MODE_TIMEOUT_US,
    ensures
        final(log).wf(),
        final(log).role == old(log).role,
        final(log).tx_ring@ == old(log).tx_ring@,
        ({
            let (h1, raw) = rx_scan(old(hal)@, ptr_delta(old(hal)@.dma_write_pos, old(hal)@.dma_read_pos, DMA_RX_BUFFER_SIZE));
            &&& found == raw.is_some()
            &&& (raw.is_none() || word_out_of_range(*old(state), packet_of(raw.unwrap()))) ==> final(hal)@ == h1
                && *final(state) == *old(state) && final(log).out_ring@ == old(log).out_ring@
            &&& (raw.is_some() && !word_out_of_range(*old(state), packet_of(raw.unwrap()))) ==> dispatch_post(
                *old(state), h1, old(log).out_ring@, packet_of(raw.unwrap()), *final(state), final(hal)@, final(log).out_ring@)
        }),
{
    let cp = hal.dma_rx_current_pos();
    let mut d = get_ptr_delta(cp, hal.dma_rx_read_pos(), DMA_RX_BUFFER_SIZE);
    let ghost d0 = d;
    while d >= crate::constants::RAW_PACKET_LENGTH as u32
        invariant
            rx_scan(hal@, d) == rx_scan(old(hal)@, d0),
            d0 == ptr_delta(old(hal)@.dma_write_pos, old(hal)@.dma_read_pos, DMA_RX_BUFFER_SIZE),
            old(hal)@.time_us <= u64::MAX - CONFIG_MODE_TIMEOUT_US,
            hal@.time_us == old(hal)@.time_us,
            *state == *old(state),
            log.wf(),
            log.role == old(log).role,
            log.tx_ring@ == old(log).tx_ring@,
            log.out_ring@ == old(log).out_ring@,
        decreases d,
    {
        if hal.is_start_of_packet() {
            let ghost before = hal@;
            let raw = hal.fetch_packet();
            let packet = packet_from_bytes(&raw);
            assert(raw@ == before.rx_packet_bytes());
            assert(packet.data =~= packet_of(before.rx_packet_bytes()).data);
            assert(packet == packet_of(before.rx_packet_bytes()));
            proof { crate::hal::lemma_rx_advance_n_moves_read_only(before, 12); }
            assert(rx_scan(before, d) == (hal@, Some(before.rx_packet_bytes())));
            let is_word = match process_packet(&packet) {
                Ok(t) => t == PacketType::ResponseByte,
                Err(_) => false,
            };
            let address = u32_from_le_bytes([packet.data[0], packet.data[1], packet.data[2], packet.data[3]]);
            assert(address == packet_address(packet));
            if is_word && address == state.fw.fw.address && address > u32::MAX - 4 {
                assert(word_out_of_range(*old(state), packet));
                return true;
            }
            assert(!word_out_of_range(*old(state), packet));
            dispatch_packet(state, hal, log, &packet);
            return true;
        }
        hal.dma_rx_advance_one();
        d = d - 1;
    }
    false
}

} // verus!
