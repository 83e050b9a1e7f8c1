//! Dispatch of the packets received from the peer board.
use vstd::prelude::*;
use crate::bytes::{u32_from_le, u32_from_le_bytes};
use crate::constants::{packet_type_code, PacketType};
use crate::hal::{repeated_call, ConfigStore, Hal, HalCall, HalView, Indicator, PacketQueue, PeerLink, Watchdog};
use crate::msg_handlers::{apply_action, applied_state, handle_simple_msg, needs_hal, simple_msg_action};
use crate::packet::{packet_meaning, process_packet, UartPacket};
use crate::service::config_api::{api_msg_effect, handle_api_msg, handle_api_read_all, read_all_responses, FIELD_COUNT, CONFIG_MODE_TIMEOUT_US};
use crate::service::fw_upgrade::{fw_response, receive_fw_byte, received_word, send_fw_byte, STAGING_IMAGE_SIZE};
use crate::service::hotkey_dispatch::{wipe_and_notify, wipe_effect};
use crate::service::msg_bridge::{
    handle_kbd_from_peer, handle_mouse_from_peer, handle_output_select, handle_set_report, handle_sync_borders,
    kbd_from_peer_effect, mouse_from_peer_effect, output_select_effect, set_report_effect, sync_borders_effect,
};
use crate::service::peer_log::{model_push_received, push_received, PeerLog, RingModel};
use crate::structs::{Device, DeviceConfig};

verus! {

/// A simple message: its state change, then the boundary work it needs.
pub open spec fn simple_effect(t: PacketType, p: UartPacket, s: Device, h: HalView) -> (Device, HalView) {
    let a = simple_msg_action(p.ptype, p.data, s.fw.running_fw.version, s.fw.fw.upgrade_in_progress);
    let s1 = applied_state(a, s);
    if !needs_hal(a) {
        (s1, h)
    } else {
        match t {
            PacketType::OutputSelect => output_select_effect(s1, h, p.data[0]),
            PacketType::KbdSetReport => set_report_effect(s1, h, p.data[0]),
            PacketType::FlashLed => (s1, h.blink()),
            PacketType::WipeConfig => (s1, wipe_effect(h)),
            PacketType::SaveConfig => (s1, h.save()),
            PacketType::Reboot => (s1, h.reboot()),
            _ => (s1, h),
        }
    }
}

/// Whether a packet type is handled as a simple message.
pub open spec fn is_simple(t: PacketType) -> bool {
    !(t is KeyboardReport || t is MouseReport || t is SyncBorders || t is GetVal || t is SetVal || t is GetAllVals
        || t is RequestByte || t is ResponseByte || t is ConsumerControl || t is ProxyPacket || t is FirmwareUpgrade
        || t is DebugLog)
}

/// The address carried by a firmware packet.
pub open spec fn packet_address(p: UartPacket) -> u32 {
    u32_from_le([p.data[0], p.data[1], p.data[2], p.data[3]])
}

fn dispatch_simple(state: &mut Device, hal: &mut Hal, action: PacketType, packet: &UartPacket)
    requires
        is_simple(action),
    ensures
        (*final(state), final(hal)@) == simple_effect(action, *packet, *old(state), old(hal)@),
{
    let handler_action = handle_simple_msg(packet.ptype, &packet.data, state);
    let needs = apply_action(&handler_action, state);
    if !needs {
        return;
    }
    match action {
        PacketType::OutputSelect => handle_output_select(state, hal, packet.data[0]),
        PacketType::KbdSetReport => handle_set_report(state, hal, packet.data[0]),
        PacketType::FlashLed => hal.blink(),
        PacketType::WipeConfig => wipe_and_notify(hal),
        PacketType::SaveConfig => {
            hal.save();
        },
        PacketType::Reboot => hal.reboot(),
        _ => {},
    }
}

/// What dispatching a packet from the peer does: from board state `s`,
/// boundary `h` and output log ring `out` to `s2`, `h2` and `out2`. A packet
/// with a bad checksum or an unknown type changes nothing; only a debug log
/// packet touches the log.
pub open spec fn dispatch_post(
    s: Device, h: HalView, out: RingModel, p: UartPacket, s2: Device, h2: HalView, out2: RingModel,
) -> bool {
    &&& !(packet_meaning(p) == Ok::<PacketType, crate::packet::PacketError>(PacketType::DebugLog)) ==> out2 == out
    &&& match packet_meaning(p) {
            Err(_) => s2 == s && h2 == h,
            Ok(t) => match t {
                PacketType::KeyboardReport => (s2, h2) == kbd_from_peer_effect(s, h, p.data),
                PacketType::MouseReport => (s2, h2) == mouse_from_peer_effect(s, h, p.data),
                PacketType::SyncBorders => (s2, h2) == sync_borders_effect(s, h, Some(p.data)),
                PacketType::GetVal | PacketType::SetVal => (s2, h2) == api_msg_effect(
                    s, h, p.ptype, p.data[0], p.data@),
                PacketType::GetAllVals => {
                    &&& h2 == (HalView {
                        config_packets: h.config_packets + read_all_responses(s, FIELD_COUNT as int),
                        calls: h.calls + repeated_call(HalCall::PushConfigPacket, FIELD_COUNT as nat),
                        ..h
                    })
                    &&& s2 == (Device {
                        cfg: DeviceConfig { config_mode_timer: (h.time_us + CONFIG_MODE_TIMEOUT_US) as u64, ..s.cfg },
                        ..s
                    })
                },
                PacketType::RequestByte => s2 == s && h2 == (if packet_address(p) < STAGING_IMAGE_SIZE {
                    h.send_packet(fw_response(packet_address(p), h.running_word(packet_address(p)))@, packet_type_code(PacketType::ResponseByte))
                } else {
                    h
                }),
                PacketType::ResponseByte => received_word(s, h, packet_address(p),
                    [p.data[4], p.data[5], p.data[6], p.data[7]], s2, h2),
                PacketType::ConsumerControl => s2 == s && h2 == h.push_consumer_control(
                    [p.data[0], p.data[1], p.data[2], p.data[3]]),
                PacketType::ProxyPacket => s2 == s && h2 == h.send_packet(
                    p.data@.skip(1), p.data[0]),
                PacketType::FirmwareUpgrade => s2 == s && h2 == h.reboot_to_bootloader(),
                PacketType::DebugLog => s2 == s && h2 == h
                    && out2 == model_push_received(out, p.data@),
                _ => (s2, h2) == simple_effect(t, p, s, h),
            },
        }
}

/// Dispatch one packet from the peer. A packet with a bad checksum or an
/// unknown type is dropped.
#[verifier::rlimit(100)]
#[verifier::spinoff_prover]
pub fn dispatch_packet(state: &mut Device, hal: &mut Hal, log: &mut PeerLog, packet: &UartPacket)
    requires
        old(log).wf(),
        old(hal)@.time_us <= u64::MAX - CONFIG_MODE_TIMEOUT_US,
        packet_meaning(*packet) == Ok::<PacketType, crate::packet::PacketError>(PacketType::ResponseByte)
            && packet_address(*packet) == old(state).fw.fw.address ==> packet_address(*packet) <= u32::MAX - 4,
    ensures
        final(log).wf(),
        final(log).role == old(log).role,
        final(log).tx_ring@ == old(log).tx_ring@,
        dispatch_post(*old(state), old(hal)@, old(log).out_ring@, *packet, *final(state), final(hal)@, final(log).out_ring@),
{
    let action = match process_packet(packet) {
        Ok(a) => a,
        Err(_) => return,
    };
    match action {
        PacketType::KeyboardReport => handle_kbd_from_peer(state, hal, &packet.data),
        PacketType::MouseReport => handle_mouse_from_peer(state, hal, &packet.data),
        PacketType::SyncBorders => handle_sync_borders(state, hal, Some(&packet.data)),
        PacketType::GetVal | PacketType::SetVal => handle_api_msg(state, hal, packet.ptype, packet.data[0], &packet.data),
        PacketType::GetAllVals => handle_api_read_all(state, hal),
        PacketType::RequestByte => {
            let address = u32_from_le_bytes([packet.data[0], packet.data[1], packet.data[2], packet.data[3]]);
            if let Some(response) = send_fw_byte(state, hal, address) {
                hal.send_packet(&response, PacketType::ResponseByte.to_u8());
            }
        },
        PacketType::ResponseByte => {
            let address = u32_from_le_bytes([packet.data[0], packet.data[1], packet.data[2], packet.data[3]]);
            let fw_data = [packet.data[4], packet.data[5], packet.data[6], packet.data[7]];
            receive_fw_byte(state, hal, address, &fw_data);
        },
        PacketType::ConsumerControl => {
            hal.push_consumer_control([packet.data[0], packet.data[1], packet.data[2], packet.data[3]]);
        },
        PacketType::ProxyPacket => {
            let rest = vstd::slice::slice_subrange(packet.data.as_slice(), 1, 8);
            hal.send_packet(rest, packet.data[0]);
        },
        PacketType::FirmwareUpgrade => hal.reboot_to_bootloader(),
        PacketType::DebugLog => push_received(log, &packet.data),
        _ => dispatch_simple(state, hal, action, packet),
    }
}

} // verus!
