use vstd::prelude::*;
use crate::hid_parser::ReportVal;

verus! {

/// Capacity limits of the HID host side.
pub const MAX_DEVICES: usize = 4;
pub const MAX_INTERFACES: usize = 12;
pub const MAX_REPORTS: usize = 24;
pub const MAX_KEYBOARDS: usize = 5;
pub const MAX_CC_BUTTONS: usize = 16;
pub const MAX_SYS_BUTTONS: usize = 8;
pub const MAX_KEYS: usize = 32;
pub const KEYS_IN_USB_REPORT: usize = 6;
pub const KBD_REPORT_LENGTH: usize = 8;

/// Flash page size.
pub const FLASH_PAGE_SIZE: usize = 256;

/// Board LED blink modes.
pub const LED_BLINK_NONE: u8 = 0;
pub const LED_BLINK_PT_WAIT: u8 = 1;

/// Screen borders (Y positions or margins) of an output.
#[derive(Debug, Clone, Copy, Default)]
pub struct BorderSize {
    pub top: i32,
    pub bottom: i32,
}

/// Screensaver settings of an output.
#[derive(Debug, Clone, Copy, Default)]
pub struct Screensaver {
    pub mode: u8,
    pub only_if_inactive: u8,
    pub idle_time_us: u64,
    pub max_time_us: u64,
}

/// Configuration of one output (computer).
#[derive(Debug, Clone, Copy, Default)]
pub struct Output {
    pub number: u32,
    pub screen_count: u32,
    pub screen_index: u32,
    pub speed_x: i32,
    pub speed_y: i32,
    pub border: BorderSize,
    pub os: u8,
    pub pos: u8,
    pub mouse_park_pos: u8,
    pub screensaver: Screensaver,
}

/// Identity of a firmware image.
#[derive(Debug, Clone, Copy, Default)]
pub struct FirmwareMetadata {
    pub magic: u32,
    pub version: u16,
    pub checksum: u32,
}

/// An inter-board packet: type, payload, XOR checksum of the payload.
#[derive(Debug, Clone, Copy, Default)]
pub struct UartPacketC {
    pub ptype: u8,
    pub data: [u8; 8],
    pub checksum: u8,
}

/// A mouse report in its structured form.
#[derive(Debug, Clone, Copy, Default)]
pub struct MouseReportC {
    pub buttons: u8,
    pub x: i16,
    pub y: i16,
    pub wheel: i8,
    pub pan: i8,
    pub mode: u8,
}

/// A generic HID report queued for the device side.
#[derive(Debug, Clone, Copy)]
pub struct HidGenericPkt {
    pub instance: u8,
    pub report_id: u8,
    pub ptype: u8,
    pub len: u8,
    pub data: [u8; 32],
}

/// Persistent configuration.
#[derive(Debug, Clone, Copy)]
pub struct Config {
    pub magic_header: u32,
    pub version: u32,
    pub force_mouse_boot_mode: u8,
    pub force_kbd_boot_protocol: u8,
    pub kbd_led_as_indicator: u8,
    pub hotkey_toggle: u8,
    pub enable_acceleration: u8,
    pub enforce_ports: u8,
    pub jump_threshold: u16,
    pub output: [Output; 2],
    pub passthrough_enabled: u8,
    pub gaming_mode_default: u8,
    pub smartshift_double_click_ms: u32,
    pub reserved: u32,
    pub checksum: u32,
}

/// Progress of a firmware transfer from the peer board.
#[derive(Debug, Clone, Copy, Default)]
pub struct FwUpgradeState {
    pub address: u32,
    pub checksum: u32,
    pub version: u16,
    pub byte_done: bool,
    pub upgrade_in_progress: bool,
}

/// Where the mouse fields live in a device's reports.
#[derive(Debug, Clone, Copy, Default)]
pub struct MouseDescriptor {
    pub buttons: ReportVal,
    pub move_x: ReportVal,
    pub move_y: ReportVal,
    pub wheel: ReportVal,
    pub pan: ReportVal,
    pub report_id: u8,
    pub is_found: bool,
    pub uses_report_id: bool,
}

/// Where the keyboard fields live in a device's reports.
#[derive(Debug, Clone, Copy, Default)]
pub struct KeyboardDescriptor {
    pub modifier: ReportVal,
    pub nkro: ReportVal,
    pub cc_array: [u16; 16],
    pub sys_array: [u16; 8],
    pub key_array: [bool; 32],
    pub report_id: u8,
    pub key_array_idx: u8,
    pub uses_report_id: bool,
    pub is_found: bool,
    pub is_nkro: bool,
}

/// A consumer/system control field descriptor.
#[derive(Debug, Clone, Copy, Default)]
pub struct ReportDescriptor {
    pub val: ReportVal,
    pub report_id: u8,
    pub is_variable: bool,
    pub is_array: bool,
}

/// One HID interface of a connected device.
#[derive(Debug, Clone, Copy, Default)]
pub struct HidInterface {
    pub keyboards: [KeyboardDescriptor; 5],
    pub num_keyboards: u8,
    pub mouse: MouseDescriptor,
    pub consumer: ReportDescriptor,
    pub system: ReportDescriptor,
    pub protocol: u8,
    pub uses_report_id: bool,
}

/// A boot-protocol keyboard report.
#[derive(Debug, Clone, Copy, Default, PartialEq, Eq)]
pub struct HidKeyboardReport {
    pub modifier: u8,
    pub reserved: u8,
    pub keycode: [u8; 6],
}

impl HidKeyboardReport {
    /// No modifier and no key.
    pub open spec fn is_clear(&self) -> bool {
        &&& self.modifier == 0
        &&& self.reserved == 0
        &&& forall|i: int| 0 <= i < 6 ==> self.keycode[i] == 0
    }

    /// The report with no modifier and no key.
    pub fn empty() -> (r: Self)
        ensures
            r.modifier == 0,
            r.reserved == 0,
            forall|i: int| 0 <= i < 6 ==> r.keycode[i] == 0,
    {
        HidKeyboardReport { modifier: 0, reserved: 0, keycode: [0u8; 6] }
    }
}

/// Wire bytes of a keyboard report.
pub open spec fn kbd_report_bytes_spec(r: HidKeyboardReport) -> [u8; 8] {
    [r.modifier, r.reserved, r.keycode[0], r.keycode[1], r.keycode[2], r.keycode[3], r.keycode[4],
        r.keycode[5]]
}

/// Serialize a keyboard report.
pub fn kbd_report_to_bytes(r: &HidKeyboardReport) -> (b: [u8; 8])
    ensures
        b == kbd_report_bytes_spec(*r),
{
    let b = [r.modifier, r.reserved, r.keycode[0], r.keycode[1], r.keycode[2], r.keycode[3],
        r.keycode[4], r.keycode[5]];
    assert(b =~= kbd_report_bytes_spec(*r));
    b
}

/// The keyboard report with these wire bytes.
pub open spec fn kbd_report_of(b: [u8; 8]) -> HidKeyboardReport {
    HidKeyboardReport { modifier: b[0], reserved: b[1], keycode: [b[2], b[3], b[4], b[5], b[6], b[7]] }
}

/// Parse a keyboard report from its wire bytes.
pub fn kbd_report_from_bytes(b: &[u8; 8]) -> (r: HidKeyboardReport)
    ensures
        kbd_report_bytes_spec(r) == *b,
        r == kbd_report_of(*b),
{
    let r = HidKeyboardReport {
        modifier: b[0],
        reserved: b[1],
        keycode: [b[2], b[3], b[4], b[5], b[6], b[7]],
    };
    assert(kbd_report_bytes_spec(r) =~= *b);
    r
}

/// An opaque inter-core queue handle.
#[derive(Clone, Copy)]
pub struct QueueOpaque {
    data: [u8; 16],
}

/// The handle's bytes.
impl View for QueueOpaque {
    type V = Seq<u8>;

    closed spec fn view(&self) -> Seq<u8> {
        self.data@
    }
}

impl QueueOpaque {
    /// An unused queue handle: all of its 16 bytes are zero.
    pub fn new() -> (q: Self)
        ensures
            q@ == Seq::new(16, |i: int| 0u8),
    {
        let q = QueueOpaque { data: [0u8; 16] };
        assert(q.data@ =~= Seq::new(16, |i: int| 0u8));
        q
    }
}

/// HID-side runtime state: pointer, buttons and keyboard states.
#[derive(Clone, Copy)]
pub struct DeviceHid {
    pub kbd_dev_addr: u8,
    pub kbd_instance: u8,
    pub pointer_x: i16,
    pub pointer_y: i16,
    pub mouse_buttons: i16,
    pub local_kbd_states: [HidKeyboardReport; 4],
    pub remote_kbd_state: HidKeyboardReport,
    pub max_kbd_idx: u8,
}

/// Configuration and connection state.
#[derive(Clone, Copy)]
pub struct DeviceConfig {
    pub config: Config,
    pub active_output: u8,
    pub board_role: u8,
    pub keyboard_leds: [u8; 2],
    pub keyboard_leds_desired: [u8; 2],
    pub keyboard_leds_actual: u8,
    pub last_activity: [u64; 2],
    pub core1_last_loop_pass: u64,
    pub last_hid_activity_us: u32,
    pub config_mode_timer: u64,
    pub tud_connected: bool,
    pub keyboard_connected: bool,
    pub mouse_connected: bool,
    pub mouse_zoom: bool,
    pub switch_lock: bool,
    pub onboard_led_state: bool,
    pub relative_mouse: bool,
    pub gaming_mode: bool,
    pub config_mode_active: bool,
    pub digitizer_active: bool,
    pub switch_requested: bool,
    pub leds_resync_pending: bool,
}

/// Firmware-transfer state.
#[derive(Clone, Copy)]
pub struct DeviceFw {
    pub fw: FwUpgradeState,
    pub running_fw: FirmwareMetadata,
    pub reboot_requested: bool,
    pub page_buffer: [u8; 256],
}

/// Board LED state.
#[derive(Clone, Copy)]
pub struct DeviceLed {
    pub blinks_left: i32,
    pub last_led_change: i32,
    pub led_blink_mode: u8,
    pub boot_led_owned: bool,
}

/// The whole runtime state of a board.
#[derive(Clone, Copy)]
pub struct Device {
    pub hid: DeviceHid,
    pub cfg: DeviceConfig,
    pub fw: DeviceFw,
    pub led: DeviceLed,
}

/// The board state as the service layer sees it.
pub type DeviceState = Device;

impl Output {
    /// Every field zero.
    pub open spec fn is_zeroed(&self) -> bool {
        self.number == 0 && self.screen_count == 0 && self.screen_index == 0 && self.speed_x == 0
            && self.speed_y == 0 && self.border.top == 0 && self.border.bottom == 0 && self.os == 0
            && self.pos == 0 && self.mouse_park_pos == 0 && self.screensaver.mode == 0
            && self.screensaver.only_if_inactive == 0 && self.screensaver.idle_time_us == 0
            && self.screensaver.max_time_us == 0
    }

    /// An all-zero output configuration.
    pub fn zeroed() -> (o: Self)
        ensures
            o.is_zeroed(),
    {
        Output {
            number: 0,
            screen_count: 0,
            screen_index: 0,
            speed_x: 0,
            speed_y: 0,
            border: BorderSize { top: 0, bottom: 0 },
            os: 0,
            pos: 0,
            mouse_park_pos: 0,
            screensaver: Screensaver { mode: 0, only_if_inactive: 0, idle_time_us: 0, max_time_us: 0 },
        }
    }
}

impl Config {
    /// Every field zero, both outputs included.
    pub open spec fn is_zeroed(&self) -> bool {
        &&& self.magic_header == 0 && self.version == 0 && self.force_mouse_boot_mode == 0
        &&& self.force_kbd_boot_protocol == 0 && self.kbd_led_as_indicator == 0 && self.hotkey_toggle == 0
        &&& self.enable_acceleration == 0 && self.enforce_ports == 0 && self.jump_threshold == 0
        &&& self.output[0].is_zeroed() && self.output[1].is_zeroed()
        &&& self.passthrough_enabled == 0 && self.gaming_mode_default == 0
        &&& self.smartshift_double_click_ms == 0 && self.reserved == 0 && self.checksum == 0
    }

    /// An all-zero configuration.
    pub fn zeroed() -> (c: Self)
        ensures
            c.is_zeroed(),
    {
        Config {
            magic_header: 0,
            version: 0,
            force_mouse_boot_mode: 0,
            force_kbd_boot_protocol: 0,
            kbd_led_as_indicator: 0,
            hotkey_toggle: 0,
            enable_acceleration: 0,
            enforce_ports: 0,
            jump_threshold: 0,
            output: [Output::zeroed(), Output::zeroed()],
            passthrough_enabled: 0,
            gaming_mode_default: 0,
            smartshift_double_click_ms: 0,
            reserved: 0,
            checksum: 0,
        }
    }
}

impl DeviceHid {
    /// No keyboard known, pointer at the origin, no button or key held.
    pub open spec fn is_zeroed(&self) -> bool {
        &&& self.kbd_dev_addr == 0 && self.kbd_instance == 0
        &&& self.pointer_x == 0 && self.pointer_y == 0 && self.mouse_buttons == 0 && self.max_kbd_idx == 0
        &&& forall|i: int| 0 <= i < 4 ==> (#[trigger] self.local_kbd_states[i]).is_clear()
        &&& self.remote_kbd_state.is_clear()
    }

    /// Pointer at the origin, no keys held.
    pub fn zeroed() -> (h: Self)
        ensures
            h.is_zeroed(),
    {
        DeviceHid {
            kbd_dev_addr: 0,
            kbd_instance: 0,
            pointer_x: 0,
            pointer_y: 0,
            mouse_buttons: 0,
            local_kbd_states: [HidKeyboardReport::empty(), HidKeyboardReport::empty(),
                HidKeyboardReport::empty(), HidKeyboardReport::empty()],
            remote_kbd_state: HidKeyboardReport::empty(),
            max_kbd_idx: 0,
        }
    }
}

impl DeviceConfig {
    /// A zero configuration, output A active on board A, every number and
    /// LED state zero, every flag off.
    pub open spec fn is_zeroed(&self) -> bool {
        &&& self.config.is_zeroed()
        &&& self.active_output == 0 && self.board_role == 0
        &&& self.keyboard_leds[0] == 0 && self.keyboard_leds[1] == 0
        &&& self.keyboard_leds_desired[0] == 0 && self.keyboard_leds_desired[1] == 0
        &&& self.keyboard_leds_actual == 0
        &&& self.last_activity[0] == 0 && self.last_activity[1] == 0
        &&& self.core1_last_loop_pass == 0 && self.last_hid_activity_us == 0 && self.config_mode_timer == 0
        &&& !self.tud_connected && !self.keyboard_connected && !self.mouse_connected && !self.mouse_zoom
        &&& !self.switch_lock && !self.onboard_led_state && !self.relative_mouse && !self.gaming_mode
        &&& !self.config_mode_active && !self.digitizer_active && !self.switch_requested
        &&& !self.leds_resync_pending
    }

    /// Zeroed configuration: output A active on board A, nothing connected.
    pub fn zeroed() -> (c: Self)
        ensures
            c.is_zeroed(),
    {
        DeviceConfig {
            config: Config::zeroed(),
            active_output: 0,
            board_role: 0,
            keyboard_leds: [0u8; 2],
            keyboard_leds_desired: [0u8; 2],
            keyboard_leds_actual: 0,
            last_activity: [0u64; 2],
            core1_last_loop_pass: 0,
            last_hid_activity_us: 0,
            config_mode_timer: 0,
            tud_connected: false,
            keyboard_connected: false,
            mouse_connected: false,
            mouse_zoom: false,
            switch_lock: false,
            onboard_led_state: false,
            relative_mouse: false,
            gaming_mode: false,
            config_mode_active: false,
            digitizer_active: false,
            switch_requested: false,
            leds_resync_pending: false,
        }
    }
}

impl DeviceFw {
    /// No transfer, no firmware identity, no reboot pending, a zero page
    /// buffer.
    pub open spec fn is_zeroed(&self) -> bool {
        &&& self.fw.address == 0 && self.fw.checksum == 0 && self.fw.version == 0
        &&& !self.fw.upgrade_in_progress && !self.fw.byte_done
        &&& self.running_fw.magic == 0 && self.running_fw.version == 0 && self.running_fw.checksum == 0
        &&& !self.reboot_requested
        &&& forall|i: int| 0 <= i < 256 ==> self.page_buffer[i] == 0
    }

    /// No transfer in progress, empty page buffer.
    pub fn zeroed() -> (f: Self)
        ensures
            f.is_zeroed(),
    {
        DeviceFw {
            fw: FwUpgradeState { address: 0, checksum: 0, version: 0, byte_done: false, upgrade_in_progress: false },
            running_fw: FirmwareMetadata { magic: 0, version: 0, checksum: 0 },
            reboot_requested: false,
            page_buffer: [0u8; 256],
        }
    }
}

impl DeviceLed {
    /// No blink sequence, no special mode.
    pub open spec fn is_zeroed(&self) -> bool {
        self.blinks_left == 0 && self.last_led_change == 0 && self.led_blink_mode == LED_BLINK_NONE
            && !self.boot_led_owned
    }

    /// No blink sequence, no special mode.
    pub fn zeroed() -> (l: Self)
        ensures
            l.is_zeroed(),
    {
        DeviceLed { blinks_left: 0, last_led_change: 0, led_blink_mode: LED_BLINK_NONE, boot_led_owned: false }
    }
}

impl Device {
    /// Whether this board drives the currently active output.
    pub open spec fn is_active_output_spec(&self) -> bool {
        self.cfg.active_output == self.cfg.board_role
    }

    /// Whether this board drives the currently active output.
    pub fn is_active_output(&self) -> (r: bool)
        ensures
            r == self.is_active_output_spec(),
    {
        self.cfg.active_output == self.cfg.board_role
    }

    /// This state with one output's configuration replaced.
    pub open spec fn with_output(self, idx: int, out: Output) -> Device {
        Device {
            cfg: DeviceConfig {
                config: Config {
                    output: [
                        if idx == 0 { out } else { self.cfg.config.output[0] },
                        if idx == 1 { out } else { self.cfg.config.output[1] },
                    ],
                    ..self.cfg.config
                },
                ..self.cfg
            },
            ..self
        }
    }

    /// This state with the activity time of one board replaced.
    pub open spec fn with_activity(self, idx: int, t: u64) -> Device {
        Device {
            cfg: DeviceConfig {
                last_activity: [
                    if idx == 0 { t } else { self.cfg.last_activity[0] },
                    if idx == 1 { t } else { self.cfg.last_activity[1] },
                ],
                ..self.cfg
            },
            ..self
        }
    }

    /// This state with the keyboard LED state of one output replaced.
    pub open spec fn with_keyboard_leds(self, idx: int, v: u8) -> Device {
        Device {
            cfg: DeviceConfig {
                keyboard_leds: [
                    if idx == 0 { v } else { self.cfg.keyboard_leds[0] },
                    if idx == 1 { v } else { self.cfg.keyboard_leds[1] },
                ],
                ..self.cfg
            },
            ..self
        }
    }

    /// This state after the local board records activity at `t`: only a
    /// board role that names an output has a slot.
    pub open spec fn touched(self, t: u64) -> Device {
        if self.cfg.board_role < 2 { self.with_activity(self.cfg.board_role as int, t) } else { self }
    }

    /// The all-zero board state.
    pub fn zeroed() -> (d: Self)
        ensures
            d.hid.is_zeroed(),
            d.cfg.is_zeroed(),
            d.fw.is_zeroed(),
            d.led.is_zeroed(),
    {
        Device { hid: DeviceHid::zeroed(), cfg: DeviceConfig::zeroed(), fw: DeviceFw::zeroed(), led: DeviceLed::zeroed() }
    }

    /// The all-zero board state, as the tests set it up.
    pub fn zeroed_for_test() -> (d: Self)
        ensures
            d.hid.is_zeroed(),
            d.cfg.is_zeroed(),
            d.fw.is_zeroed(),
            d.led.is_zeroed(),
    {
        Self::zeroed()
    }
}

} // verus!
