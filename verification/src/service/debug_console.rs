//! What the debug console's commands do: key and consumer-control taps on
//! the active output, and handing this board's firmware to the peer.
use vstd::prelude::*;
use crate::cdc_console::DbgCommand;
use crate::constants::{packet_type_code, PacketType};
use crate::hal::{Hal, HalView, PeerLink};
use crate::packet::{build_heartbeat_payload, heartbeat_payload};
use crate::service::router::ReportRouter;
use crate::structs::Device;

verus! {

/// A consumer-control report for one usage.
pub open spec fn consumer_report_spec(usage: u16) -> [u8; 4] {
    [(usage % 256) as u8, (usage / 256) as u8, 0, 0]
}

/// Build the consumer-control report for one usage.
pub fn consumer_report(usage: u16) -> (r: [u8; 4])
    ensures
        r == consumer_report_spec(usage),
{
    let r = [(usage % 256) as u8, (usage / 256) as u8, 0, 0];
    assert(r =~= consumer_report_spec(usage));
    r
}

/// A report routed to the active output: queued here when this board
/// drives it (recording activity), sent to the peer otherwise.
pub open spec fn routed(s: Device, h: HalView, local: HalView, bytes: Seq<u8>, t: PacketType) -> (Device, HalView) {
    if s.is_active_output_spec() {
        (s.touched(h.time_us), local)
    } else {
        (s, h.send_packet(bytes, packet_type_code(t)))
    }
}

/// A consumer-control report routed to the active output.
pub open spec fn consumer_routed(s: Device, h: HalView, r: [u8; 4]) -> (Device, HalView) {
    routed(s, h, h.push_consumer_control(r), r@, PacketType::ConsumerControl)
}

/// A keyboard report routed to the active output.
pub open spec fn kbd_routed(s: Device, h: HalView, r: [u8; 8]) -> (Device, HalView) {
    routed(s, h, h.push_kbd_report(r), r@, PacketType::KeyboardReport)
}

/// A consumer-control tap: the usage pressed, then released.
pub open spec fn consumer_tap_effect(s: Device, h: HalView, usage: u16) -> (Device, HalView) {
    let (s1, h1) = consumer_routed(s, h, consumer_report_spec(usage));
    consumer_routed(s1, h1, consumer_report_spec(0))
}

/// Tap a consumer-control usage on the active output.
pub fn dbg_send_consumer(state: &mut Device, hal: &mut Hal, usage: u16)
    ensures
        (*final(state), final(hal)@) == consumer_tap_effect(*old(state), old(hal)@, usage),
{
    let down = consumer_report(usage);
    hal.route_consumer(state, down);
    let up = consumer_report(0);
    hal.route_consumer(state, up);
}

/// A key tap: the key pressed with the modifiers, then everything released.
pub open spec fn kbd_tap_effect(s: Device, h: HalView, modifier: u8, key: u8) -> (Device, HalView) {
    let (s1, h1) = kbd_routed(s, h, [modifier, 0, key, 0, 0, 0, 0, 0]);
    kbd_routed(s1, h1, [0u8, 0, 0, 0, 0, 0, 0, 0])
}

/// Tap a key with modifiers on the active output.
pub fn dbg_send_kbd(state: &mut Device, hal: &mut Hal, modifier: u8, key: u8)
    ensures
        (*final(state), final(hal)@) == kbd_tap_effect(*old(state), old(hal)@, modifier, key),
{
    let down: [u8; 8] = [modifier, 0, key, 0, 0, 0, 0, 0];
    hal.route_kbd(state, down);
    let up: [u8; 8] = [0u8, 0, 0, 0, 0, 0, 0, 0];
    hal.route_kbd(state, up);
}

/// The version a forced push claims, above any real version.
pub const FORCED_PUSH_VERSION: u16 = 0xFFFF;

/// The heartbeat that makes the peer take this board's firmware: it claims
/// the highest version, with the real checksum and active output.
pub open spec fn force_push_effect(s: Device, h: HalView) -> HalView {
    h.send_packet(
        heartbeat_payload(FORCED_PUSH_VERSION, s.fw.running_fw.checksum as u16, s.cfg.active_output)@,
        packet_type_code(PacketType::Heartbeat),
    )
}

/// Make the peer take this board's firmware whatever the versions say.
pub fn dbg_force_push(state: &Device, hal: &mut Hal)
    ensures
        final(hal)@ == force_push_effect(*state, old(hal)@),
{
    let crc16 = state.fw.running_fw.checksum as u16;
    let data = build_heartbeat_payload(FORCED_PUSH_VERSION, crc16, state.cfg.active_output);
    hal.send_packet(data.as_slice(), PacketType::Heartbeat.to_u8());
}

/// What a console command does to the board; the log commands concern
/// the log alone and change nothing here.
pub open spec fn dbg_command_effect(s: Device, h: HalView, cmd: DbgCommand) -> (Device, HalView) {
    match cmd {
        DbgCommand::ConsumerTap(usage) => consumer_tap_effect(s, h, usage),
        DbgCommand::KeyboardTap { modifier, keycode } => kbd_tap_effect(s, h, modifier, keycode),
        DbgCommand::PushFirmware => (s, force_push_effect(s, h)),
        _ => (s, h),
    }
}

/// Carry out a console command.
pub fn run_dbg_command(state: &mut Device, hal: &mut Hal, cmd: DbgCommand)
    ensures
        (*final(state), final(hal)@) == dbg_command_effect(*old(state), old(hal)@, cmd),
{
    match cmd {
        DbgCommand::ConsumerTap(usage) => dbg_send_consumer(state, hal, usage),
        DbgCommand::KeyboardTap { modifier, keycode } => dbg_send_kbd(state, hal, modifier, keycode),
        DbgCommand::PushFirmware => dbg_force_push(state, hal),
        _ => {},
    }
}

} // verus!
