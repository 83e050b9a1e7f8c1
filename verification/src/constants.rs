use vstd::prelude::*;

verus! {

/// Smallest absolute screen coordinate.
pub const MIN_SCREEN_COORD: i16 = 0;
/// Largest absolute screen coordinate.
pub const MAX_SCREEN_COORD: i16 = 32767;

/// Number of outputs (computers) the two boards serve.
pub const NUM_SCREENS: usize = 2;

/// Board roles / output identifiers.
pub const OUTPUT_A: u8 = 0;
pub const OUTPUT_B: u8 = 1;

/// Bytes of payload carried by an inter-board packet.
pub const PACKET_DATA_LENGTH: usize = 8;
/// Packet type + payload + checksum.
pub const PACKET_LENGTH: usize = 10;
/// Two preamble bytes + packet.
pub const RAW_PACKET_LENGTH: usize = 12;
/// Preamble of a raw inter-board packet.
pub const START1: u8 = 0xAA;
pub const START2: u8 = 0x55;

/// Operating systems an output can be configured for.
pub const OS_LINUX: u8 = 1;
pub const OS_MACOS: u8 = 2;
pub const OS_WINDOWS: u8 = 3;
pub const OS_ANDROID: u8 = 4;
pub const OS_OTHER: u8 = 255;

/// Mouse report modes.
pub const ABSOLUTE: u8 = 0;
pub const RELATIVE: u8 = 1;

/// Generic on/off payload values.
pub const ENABLE: u8 = 1;
pub const DISABLE: u8 = 0;

/// HID interface protocols and report protocols.
pub const HID_ITF_PROTOCOL_NONE: u8 = 0;
pub const HID_ITF_PROTOCOL_KEYBOARD: u8 = 1;
pub const HID_ITF_PROTOCOL_MOUSE: u8 = 2;
pub const HID_PROTOCOL_BOOT: u8 = 0;
pub const HID_PROTOCOL_REPORT: u8 = 1;

/// Device-side HID interface used for keyboard and mouse reports.
pub const ITF_NUM_HID: u8 = 0;

/// Keyboard modifier bits.
pub const KEYBOARD_MODIFIER_LEFTCTRL: u8 = 0x01;
pub const KEYBOARD_MODIFIER_LEFTSHIFT: u8 = 0x02;
pub const KEYBOARD_MODIFIER_LEFTALT: u8 = 0x04;
pub const KEYBOARD_MODIFIER_LEFTGUI: u8 = 0x08;
pub const KEYBOARD_MODIFIER_RIGHTCTRL: u8 = 0x10;
pub const KEYBOARD_MODIFIER_RIGHTSHIFT: u8 = 0x20;
pub const KEYBOARD_MODIFIER_RIGHTALT: u8 = 0x40;
pub const KEYBOARD_MODIFIER_RIGHTGUI: u8 = 0x80;

/// Keyboard LED bits.
pub const KEYBOARD_LED_NUMLOCK: u8 = 0x01;
pub const KEYBOARD_LED_CAPSLOCK: u8 = 0x02;
pub const KEYBOARD_LED_SCROLLLOCK: u8 = 0x04;

/// HID key codes used by hotkeys and the screen-lock sequence.
pub const HID_KEY_A: u8 = 0x04;
pub const HID_KEY_B: u8 = 0x05;
pub const HID_KEY_C: u8 = 0x06;
pub const HID_KEY_D: u8 = 0x07;
pub const HID_KEY_G: u8 = 0x0A;
pub const HID_KEY_J: u8 = 0x0D;
pub const HID_KEY_L: u8 = 0x0F;
pub const HID_KEY_O: u8 = 0x12;
pub const HID_KEY_P: u8 = 0x13;
pub const HID_KEY_Q: u8 = 0x14;
pub const HID_KEY_S: u8 = 0x16;
pub const HID_KEY_X: u8 = 0x1B;
pub const HID_KEY_Y: u8 = 0x1C;
pub const HID_KEY_CAPS_LOCK: u8 = 0x39;
pub const HID_KEY_F12: u8 = 0x45;

/// Default output-toggle hotkey: Left Ctrl + Caps Lock.
pub const HOTKEY_MODIFIER: u8 = KEYBOARD_MODIFIER_LEFTCTRL;
pub const HOTKEY_TOGGLE: u8 = HID_KEY_CAPS_LOCK;

/// Types of inter-board packets.
#[derive(Clone, Copy, Debug, PartialEq, Eq, Structural)]
pub enum PacketType {
    KeyboardReport,
    MouseReport,
    OutputSelect,
    FirmwareUpgrade,
    MouseZoom,
    KbdSetReport,
    SwitchLock,
    SyncBorders,
    FlashLed,
    WipeConfig,
    Screensaver,
    Heartbeat,
    GamingMode,
    ConsumerControl,
    SystemControl,
    SaveConfig,
    Reboot,
    GetVal,
    SetVal,
    GetAllVals,
    ProxyPacket,
    RequestByte,
    ResponseByte,
    DebugLog,
}

/// Wire code of each packet type.
pub open spec fn packet_type_code(t: PacketType) -> u8 {
    match t {
        PacketType::KeyboardReport => 1,
        PacketType::MouseReport => 2,
        PacketType::OutputSelect => 3,
        PacketType::FirmwareUpgrade => 4,
        PacketType::MouseZoom => 5,
        PacketType::KbdSetReport => 6,
        PacketType::SwitchLock => 7,
        PacketType::SyncBorders => 8,
        PacketType::FlashLed => 9,
        PacketType::WipeConfig => 10,
        PacketType::Screensaver => 11,
        PacketType::Heartbeat => 12,
        PacketType::GamingMode => 13,
        PacketType::ConsumerControl => 14,
        PacketType::SystemControl => 15,
        PacketType::SaveConfig => 18,
        PacketType::Reboot => 19,
        PacketType::GetVal => 20,
        PacketType::SetVal => 21,
        PacketType::GetAllVals => 22,
        PacketType::ProxyPacket => 23,
        PacketType::RequestByte => 24,
        PacketType::ResponseByte => 25,
        PacketType::DebugLog => 26,
    }
}

/// The packet type a wire code stands for, if any.
pub open spec fn packet_type_of(code: u8) -> Option<PacketType> {
    if code == 1 { Some(PacketType::KeyboardReport) }
    else if code == 2 { Some(PacketType::MouseReport) }
    else if code == 3 { Some(PacketType::OutputSelect) }
    else if code == 4 { Some(PacketType::FirmwareUpgrade) }
    else if code == 5 { Some(PacketType::MouseZoom) }
    else if code == 6 { Some(PacketType::KbdSetReport) }
    else if code == 7 { Some(PacketType::SwitchLock) }
    else if code == 8 { Some(PacketType::SyncBorders) }
    else if code == 9 { Some(PacketType::FlashLed) }
    else if code == 10 { Some(PacketType::WipeConfig) }
    else if code == 11 { Some(PacketType::Screensaver) }
    else if code == 12 { Some(PacketType::Heartbeat) }
    else if code == 13 { Some(PacketType::GamingMode) }
    else if code == 14 { Some(PacketType::ConsumerControl) }
    else if code == 15 { Some(PacketType::SystemControl) }
    else if code == 18 { Some(PacketType::SaveConfig) }
    else if code == 19 { Some(PacketType::Reboot) }
    else if code == 20 { Some(PacketType::GetVal) }
    else if code == 21 { Some(PacketType::SetVal) }
    else if code == 22 { Some(PacketType::GetAllVals) }
    else if code == 23 { Some(PacketType::ProxyPacket) }
    else if code == 24 { Some(PacketType::RequestByte) }
    else if code == 25 { Some(PacketType::ResponseByte) }
    else if code == 26 { Some(PacketType::DebugLog) }
    else { None }
}

impl PacketType {
    /// Wire code of this packet type.
    pub fn to_u8(self) -> (r: u8)
        ensures
            r == packet_type_code(self),
    {
        match self {
            PacketType::KeyboardReport => 1,
            PacketType::MouseReport => 2,
            PacketType::OutputSelect => 3,
            PacketType::FirmwareUpgrade => 4,
            PacketType::MouseZoom => 5,
            PacketType::KbdSetReport => 6,
            PacketType::SwitchLock => 7,
            PacketType::SyncBorders => 8,
            PacketType::FlashLed => 9,
            PacketType::WipeConfig => 10,
            PacketType::Screensaver => 11,
            PacketType::Heartbeat => 12,
            PacketType::GamingMode => 13,
            PacketType::ConsumerControl => 14,
            PacketType::SystemControl => 15,
            PacketType::SaveConfig => 18,
            PacketType::Reboot => 19,
            PacketType::GetVal => 20,
            PacketType::SetVal => 21,
            PacketType::GetAllVals => 22,
            PacketType::ProxyPacket => 23,
            PacketType::RequestByte => 24,
            PacketType::ResponseByte => 25,
            PacketType::DebugLog => 26,
        }
    }

    /// Decode a wire code.
    pub fn from_u8(code: u8) -> (r: Option<PacketType>)
        ensures
            r == packet_type_of(code),
    {
        if code == 1 { Some(PacketType::KeyboardReport) }
        else if code == 2 { Some(PacketType::MouseReport) }
        else if code == 3 { Some(PacketType::OutputSelect) }
        else if code == 4 { Some(PacketType::FirmwareUpgrade) }
        else if code == 5 { Some(PacketType::MouseZoom) }
        else if code == 6 { Some(PacketType::KbdSetReport) }
        else if code == 7 { Some(PacketType::SwitchLock) }
        else if code == 8 { Some(PacketType::SyncBorders) }
        else if code == 9 { Some(PacketType::FlashLed) }
        else if code == 10 { Some(PacketType::WipeConfig) }
        else if code == 11 { Some(PacketType::Screensaver) }
        else if code == 12 { Some(PacketType::Heartbeat) }
        else if code == 13 { Some(PacketType::GamingMode) }
        else if code == 14 { Some(PacketType::ConsumerControl) }
        else if code == 15 { Some(PacketType::SystemControl) }
        else if code == 18 { Some(PacketType::SaveConfig) }
        else if code == 19 { Some(PacketType::Reboot) }
        else if code == 20 { Some(PacketType::GetVal) }
        else if code == 21 { Some(PacketType::SetVal) }
        else if code == 22 { Some(PacketType::GetAllVals) }
        else if code == 23 { Some(PacketType::ProxyPacket) }
        else if code == 24 { Some(PacketType::RequestByte) }
        else if code == 25 { Some(PacketType::ResponseByte) }
        else if code == 26 { Some(PacketType::DebugLog) }
        else { None }
    }
}

/// Decoding a packet type's wire code gives the packet type back.
pub proof fn lemma_packet_type_roundtrip(t: PacketType)
    ensures
        packet_type_of(packet_type_code(t)) == Some(t),
{
}

} // verus!
