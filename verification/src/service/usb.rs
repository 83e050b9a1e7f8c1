//! Host-side USB events: a HID interface mounted or removed, and the LED
//! state a host sets on the keyboard interface.
use vstd::prelude::*;
use crate::constants::{
    packet_type_code, PacketType, ENABLE, HID_ITF_PROTOCOL_KEYBOARD, HID_ITF_PROTOCOL_MOUSE, HID_PROTOCOL_BOOT,
    HID_PROTOCOL_REPORT, KEYBOARD_LED_CAPSLOCK, OUTPUT_A, OUTPUT_B,
};
use crate::hal::{Hal, HalView, Indicator, OutputControl, PeerLink};
use crate::structs::{Device, DeviceConfig, DeviceHid, HidInterface};

verus! {

/// Mount parameters of a HID interface.
pub struct MountParams {
    pub dev_addr: u8,
    pub instance: u8,
    pub itf_protocol: u8,
}

/// Whether ports are enforced and the interface sits on the wrong board:
/// keyboards belong to board A, mice to board B.
pub open spec fn mount_refused(s: Device, itf_protocol: u8) -> bool {
    s.cfg.config.enforce_ports != 0 && (
        (itf_protocol == HID_ITF_PROTOCOL_KEYBOARD && s.cfg.board_role == OUTPUT_B)
        || (itf_protocol == HID_ITF_PROTOCOL_MOUSE && s.cfg.board_role == OUTPUT_A))
}

/// The protocol to set on a newly mounted interface, if any.
pub open spec fn mount_protocol(s: Device, iface_protocol: u8, itf_protocol: u8) -> Option<u8> {
    if itf_protocol == HID_ITF_PROTOCOL_KEYBOARD {
        if s.cfg.config.force_kbd_boot_protocol != 0 { Some(HID_PROTOCOL_BOOT) } else { None }
    } else if itf_protocol == HID_ITF_PROTOCOL_MOUSE {
        if s.cfg.config.force_mouse_boot_mode != 0 {
            Some(HID_PROTOCOL_BOOT)
        } else if iface_protocol == HID_PROTOCOL_BOOT {
            Some(HID_PROTOCOL_REPORT)
        } else {
            None
        }
    } else {
        None
    }
}

/// The board state after an accepted mount.
pub open spec fn mounted_state(s: Device, mouse_found: bool, p: (u8, u8, u8)) -> Device {
    let s1 = if p.2 == HID_ITF_PROTOCOL_KEYBOARD {
        Device {
            hid: DeviceHid { kbd_dev_addr: p.0, kbd_instance: p.1, ..s.hid },
            cfg: DeviceConfig { keyboard_connected: true, ..s.cfg },
            ..s
        }
    } else if p.2 == HID_ITF_PROTOCOL_MOUSE {
        Device { cfg: DeviceConfig { mouse_connected: true, ..s.cfg }, ..s }
    } else {
        s
    };
    if mouse_found { Device { cfg: DeviceConfig { mouse_connected: true, ..s1.cfg }, ..s1 } } else { s1 }
}

/// Handle a mounted HID interface: refuse it on the wrong board when ports
/// are enforced; otherwise record the connection, flash the LEDs of both
/// boards, and tell which protocol to set, if any.
#[verifier::rlimit(40)]
pub fn on_hid_mount(state: &mut Device, hal: &mut Hal, iface: &mut HidInterface, params: &MountParams) -> (r: Option<u8>)
    ensures
        mount_refused(*old(state), params.itf_protocol) ==> r is None && *final(state) == *old(state)
            && final(hal)@ == old(hal)@,
        !mount_refused(*old(state), params.itf_protocol) ==> {
            &&& r == mount_protocol(*old(state), old(iface).protocol, params.itf_protocol)
            &&& *final(state) == mounted_state(*old(state), old(iface).mouse.is_found, (params.dev_addr, params.instance, params.itf_protocol))
            &&& final(hal)@ == old(hal)@.blink().send_value(ENABLE, packet_type_code(PacketType::FlashLed))
        },
        *final(iface) == *old(iface),
{
    let mut set_proto = None;
    if params.itf_protocol == HID_ITF_PROTOCOL_KEYBOARD {
        if state.cfg.config.enforce_ports != 0 && state.cfg.board_role == OUTPUT_B {
            return None;
        }
        if state.cfg.config.force_kbd_boot_protocol != 0 {
            set_proto = Some(HID_PROTOCOL_BOOT);
        }
        state.hid.kbd_dev_addr = params.dev_addr;
        state.hid.kbd_instance = params.instance;
        state.cfg.keyboard_connected = true;
    } else if params.itf_protocol == HID_ITF_PROTOCOL_MOUSE {
        if state.cfg.config.enforce_ports != 0 && state.cfg.board_role == OUTPUT_A {
            return None;
        }
        if state.cfg.config.force_mouse_boot_mode != 0 {
            set_proto = Some(HID_PROTOCOL_BOOT);
        } else if iface.protocol == HID_PROTOCOL_BOOT {
            set_proto = Some(HID_PROTOCOL_REPORT);
        }
        state.cfg.mouse_connected = true;
    }
    if iface.mouse.is_found {
        state.cfg.mouse_connected = true;
    }
    hal.blink();
    hal.send_value(ENABLE, PacketType::FlashLed.to_u8());
    set_proto
}

/// Handle a removed HID interface: clear its connection flag.
pub fn on_hid_umount(cfg: &mut DeviceConfig, itf_protocol: u8)
    ensures
        *final(cfg) == (if itf_protocol == HID_ITF_PROTOCOL_KEYBOARD {
            DeviceConfig { keyboard_connected: false, ..*old(cfg) }
        } else if itf_protocol == HID_ITF_PROTOCOL_MOUSE {
            DeviceConfig { mouse_connected: false, ..*old(cfg) }
        } else {
            *old(cfg)
        }),
{
    if itf_protocol == HID_ITF_PROTOCOL_KEYBOARD {
        cfg.keyboard_connected = false;
    } else if itf_protocol == HID_ITF_PROTOCOL_MOUSE {
        cfg.mouse_connected = false;
    }
}

/// The LED state kept for a host's request: when the keyboard LED shows the
/// active output, caps lock is taken over for that (lit for output B).
pub open spec fn led_state(led: u8, as_indicator: bool, active_output: u8) -> u8 {
    if as_indicator {
        (led & 0xFD) | (if active_output != 0 { KEYBOARD_LED_CAPSLOCK } else { 0u8 })
    } else {
        led
    }
}

/// Compute the LED state kept for a host's request.
pub fn process_led_state(led: u8, as_indicator: bool, active_output: u8) -> (r: u8)
    ensures
        r == led_state(led, as_indicator, active_output),
{
    if as_indicator {
        (led & 0xFD) | (if active_output != 0 { KEYBOARD_LED_CAPSLOCK } else { 0u8 })
    } else {
        led
    }
}

/// Record the LED state this board's host set, bring the keyboard in line
/// when this board drives the active output, and tell the peer.
pub fn process_led_report(state: &mut Device, hal: &mut Hal, led_byte: u8)
    requires
        old(state).cfg.board_role < 2,
    ensures
        *final(state) == old(state).with_keyboard_leds(
            old(state).cfg.board_role as int,
            led_state(led_byte, old(state).cfg.config.kbd_led_as_indicator != 0, old(state).cfg.active_output),
        ),
        final(hal)@ == (if old(state).cfg.keyboard_connected && old(state).is_active_output_spec() {
            old(hal)@.sync_leds()
        } else {
            old(hal)@
        }).send_value(
            led_state(led_byte, old(state).cfg.config.kbd_led_as_indicator != 0, old(state).cfg.active_output),
            packet_type_code(PacketType::KbdSetReport),
        ),
{
    let leds = process_led_state(led_byte, state.cfg.config.kbd_led_as_indicator != 0, state.cfg.active_output);
    let role = state.cfg.board_role as usize;
    state.cfg.keyboard_leds[role] = leds;
    assert(state.cfg.keyboard_leds =~= old(state).with_keyboard_leds(role as int, leds).cfg.keyboard_leds);
    if state.cfg.keyboard_connected && state.is_active_output() {
        hal.sync_leds();
    }
    hal.send_value(leds, PacketType::KbdSetReport.to_u8());
}

/// Whether configuration mode is active.
pub fn is_config_mode(cfg: &DeviceConfig) -> (r: bool)
    ensures
        r == cfg.config_mode_active,
{
    cfg.config_mode_active
}


/// Device-side interface of the configuration endpoint.
pub const ITF_NUM_HID_VENDOR: u8 = 2;
/// Report id of configuration packets.
pub const REPORT_ID_VENDOR: u8 = 6;
/// Report id of the keyboard.
pub const REPORT_ID_KEYBOARD: u8 = 1;
/// Report type of an output report.
pub const HID_REPORT_TYPE_OUTPUT: u8 = 2;

/// Where an output report from the host goes.
#[derive(Debug, Clone, Copy, PartialEq, Eq)]
pub enum SetReportRoute {
    /// To the passed-through upstream device.
    Passthrough,
    /// A configuration packet, to be checked and run.
    ConfigPacket,
    /// A configuration report of the wrong length, dropped.
    ConfigBadLength,
    /// The host's keyboard LED state.
    KeyboardLeds(u8),
    /// Nothing to do.
    Ignore,
}

/// Where an output report goes: to the upstream device on a passed-through
/// interface while pass-through is on; on the configuration interface, a
/// configuration packet (only in configuration mode, and only of the packet
/// length); a one-byte keyboard output report is the LED state.
pub open spec fn set_report_route_spec(
    pt_active: bool, config_mode: bool, instance: u8, report_id: u8, report_type: u8, buffer: Seq<u8>,
) -> SetReportRoute {
    if pt_active && instance >= crate::passthrough::ITF_NUM_PT_BASE {
        SetReportRoute::Passthrough
    } else if instance == ITF_NUM_HID_VENDOR && report_id == REPORT_ID_VENDOR {
        if !config_mode {
            SetReportRoute::Ignore
        } else if buffer.len() != crate::constants::RAW_PACKET_LENGTH {
            SetReportRoute::ConfigBadLength
        } else {
            SetReportRoute::ConfigPacket
        }
    } else if report_id == REPORT_ID_KEYBOARD && buffer.len() == 1 && report_type == HID_REPORT_TYPE_OUTPUT {
        SetReportRoute::KeyboardLeds(buffer[0])
    } else {
        SetReportRoute::Ignore
    }
}

/// Decide where an output report from the host goes.
pub fn route_set_report(
    pt_active: bool, config_mode: bool, instance: u8, report_id: u8, report_type: u8, buffer: &[u8],
) -> (r: SetReportRoute)
    ensures
        r == set_report_route_spec(pt_active, config_mode, instance, report_id, report_type, buffer@),
{
    if pt_active && instance >= crate::passthrough::ITF_NUM_PT_BASE {
        return SetReportRoute::Passthrough;
    }
    if instance == ITF_NUM_HID_VENDOR && report_id == REPORT_ID_VENDOR {
        if !config_mode {
            return SetReportRoute::Ignore;
        }
        if buffer.len() != crate::constants::RAW_PACKET_LENGTH {
            return SetReportRoute::ConfigBadLength;
        }
        return SetReportRoute::ConfigPacket;
    }
    if report_id == REPORT_ID_KEYBOARD && buffer.len() == 1 && report_type == HID_REPORT_TYPE_OUTPUT {
        return SetReportRoute::KeyboardLeds(buffer[0]);
    }
    SetReportRoute::Ignore
}

} // verus!
