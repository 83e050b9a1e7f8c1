//! The hardware boundary. The traits name the operations the logic needs
//! from the board; `Hal` is the boundary as plain values: what the hardware
//! reports in (time, readiness flags, queued input) and a ledger of every
//! operation the logic asked for, in order. The firmware loop fills the
//! inputs before a step and performs the ledger's operations after it.
use vstd::prelude::*;

verus! {

/// Microsecond timestamp source.
pub trait Timer {
    fn now_us_64(&self) -> u64;
    fn now_us_32(&self) -> u32;
}

/// System health: watchdog refresh, reset, and boot mode control.
pub trait Watchdog {
    fn kick(&mut self);
    fn reboot(&mut self);
    fn reboot_to_bootloader(&mut self);
    /// Set persistent flag for config-mode boot.
    fn set_boot_flag(&mut self);
    /// Whether the boot-select button is held.
    fn is_bootsel_pressed(&self) -> bool;
}

/// USB device-side HID operations.
pub trait UsbDevice {
    fn is_ready(&self) -> bool;
    fn is_suspended(&self) -> bool;
    fn remote_wakeup(&mut self);
    fn hid_ready(&self, instance: u8) -> bool;
    fn send_keyboard_report(&mut self, report_id: u8, modifier: u8, keycode: &[u8]) -> bool;
    fn send_mouse_report(&mut self, mode: u8, buttons: u8, x: i16, y: i16, wheel: i8, pan: i8) -> bool;
}

/// HID report queues (mouse/keyboard) between cores.
pub trait ReportQueue {
    fn push_mouse_report(&mut self, report: [u8; 8]);
    fn push_kbd_report(&mut self, report: [u8; 8]);
    fn peek_kbd_report(&self, out: &mut [u8; 8]) -> bool;
    fn pop_kbd_report(&mut self, out: &mut [u8; 8]) -> bool;
    fn peek_mouse_report(&self, out: &mut [u8; 8]) -> bool;
    fn pop_mouse_report(&mut self, out: &mut [u8; 8]) -> bool;
}

/// Generic HID report queue toward the device side.
pub trait HidQueue {
    fn peek_hid_report(&self, out: &mut [u8; 36]) -> bool;
    fn pop_hid_report(&mut self, out: &mut [u8; 36]) -> bool;
    fn send_hid_report(&mut self, instance: u8, report_id: u8, data: &[u8]) -> bool;
    fn queue_hid_report(&mut self, instance: u8, report_id: u8, data: &[u8]);
}

/// Control packet queues (consumer control, system control, config).
pub trait PacketQueue {
    fn push_consumer_control(&mut self, payload: [u8; 4]);
    fn push_system_control(&mut self, payload: [u8; 2]);
    fn push_config_packet(&mut self, packet: [u8; 10]);
}

/// Inter-board communication link (high-level send + outbound queue).
pub trait PeerLink {
    /// Build and enqueue a single-value packet.
    fn send_value(&mut self, value: u8, packet_type: u8);
    /// Build and enqueue a data packet.
    fn send_packet(&mut self, data: &[u8], packet_type: u8);
    /// Enqueue a pre-built packet to the outbound buffer.
    fn enqueue(&mut self, packet: [u8; 10]);
    /// Dequeue one packet from the outbound buffer for transmission.
    fn dequeue(&mut self, out: &mut [u8; 10]) -> bool;
}

/// Physical data transfer channel.
pub trait Transfer {
    fn is_busy(&self) -> bool;
    fn transmit(&mut self, buf: &[u8]);
}

/// Persistent configuration storage.
pub trait ConfigStore {
    fn save(&mut self) -> bool;
    fn load(&mut self);
    fn wipe(&mut self);
    fn read_running_fw(&self, address: u32) -> u32;
}

/// Output switching and associated state synchronization.
pub trait OutputControl {
    fn switch_output(&mut self, output: u8);
    fn sync_leds(&mut self);
}

/// On-board status indicator (LED or equivalent).
pub trait Indicator {
    /// Start a blink sequence.
    fn blink(&mut self);
    /// Toggle on-board LED, returns new state (true = ON).
    fn toggle(&mut self) -> bool;
    /// Set keyboard LEDs (Num/Caps/Scroll) via USB host SET_REPORT.
    fn set_keyboard_leds(&mut self, leds: u8);
    /// Drive the on-board LED.
    fn set_board_led(&mut self, on: bool);
}

/// Debug/diagnostic output.
pub trait Trace {
    fn blink_debug(&mut self, count: i32, delay_ms: i32);
    fn dump_state(&mut self);
}

/// Host-side (upstream device) USB operations.
pub trait UsbHost {
    fn send_set_report(&mut self, dev_addr: u8, instance: u8, report_id: u8, report_type: u8, data: &[u8]) -> bool;
    fn get_upstream_vid_pid(&self, dev_addr: u8) -> (u16, u16);
    fn receive_report(&mut self, dev_addr: u8, instance: u8);
}

/// The receive ring the inter-board link's DMA fills.
pub trait DmaRx {
    /// Where the DMA will write next.
    fn dma_rx_current_pos(&self) -> u32;
    /// Where reading goes on.
    fn dma_rx_read_pos(&self) -> u32;
    /// Skip one received byte.
    fn dma_rx_advance_one(&mut self);
    /// Whether a packet preamble starts at the read position.
    fn is_start_of_packet(&self) -> bool;
    /// Take a whole raw packet from the read position: the preamble is
    /// skipped, the ten packet bytes are given back.
    fn fetch_packet(&mut self) -> [u8; 10];
}

/// Device-side re-enumeration for the passthrough mode.
pub trait PassthroughHal {
    fn build_config_desc(&mut self) -> bool;
    fn clear_config_desc(&mut self);
    fn device_connect(&mut self);
    fn device_disconnect(&mut self);
}

/// The ids of the first entry for `dev_addr` in `s`, else `default`.
pub open spec fn ids_for(s: Seq<(u8, u16, u16)>, dev_addr: u8, default: (u16, u16)) -> (u16, u16)
    decreases s.len(),
{
    if s.len() == 0 {
        default
    } else if s[0].0 == dev_addr {
        (s[0].1, s[0].2)
    } else {
        ids_for(s.drop_first(), dev_addr, default)
    }
}

/// Mask of a position in the receive ring.
pub const RX_RING_MASK: u32 = 1023;

/// A counter that stops at its maximum.
pub open spec fn bump(c: u64) -> u64 {
    if c < u64::MAX { (c + 1) as u64 } else { c }
}

fn bump_exec(c: u64) -> (r: u64)
    ensures
        r == bump(c),
{
    if c < u64::MAX { c + 1 } else { c }
}

/// One operation the logic asked of the boundary, in the order asked.
/// What an operation carried in bytes stands in the record of its kind
/// (the `n`-th `SendPacket` here is the `n`-th entry of `sent_packets`);
/// the small values that tell two calls of a kind apart stand here too.
#[derive(Clone, Copy, Debug, PartialEq, Eq, Structural)]
pub enum HalCall {
    Kick,
    Reboot,
    RebootToBootloader,
    SetBootFlag,
    RemoteWakeup,
    SendKeyboardReport,
    SendMouseReport,
    PushMouseReport,
    PushKbdReport,
    PopKbdReport,
    PopMouseReport,
    PopHidReport,
    SendHidReport,
    QueueHidReport,
    PushConsumerControl,
    PushSystemControl,
    PushConfigPacket,
    /// A single-value packet: the value and the packet type.
    SendValue(u8, u8),
    /// A data packet of the given packet type.
    SendPacket(u8),
    Enqueue,
    Dequeue,
    Transmit,
    Save,
    Load,
    Wipe,
    /// An output switch to the given output.
    SwitchOutput(u8),
    SyncLeds,
    Blink,
    Toggle,
    /// Keyboard LEDs set to the given bits.
    SetKeyboardLeds(u8),
    /// The board LED driven on or off.
    SetBoardLed(bool),
    SendKbdLeds,
    BlinkDebug,
    DumpState,
    SendSetReport,
    ReceiveReport,
    BuildConfigDesc,
    ClearConfigDesc,
    DeviceConnect,
    DeviceDisconnect,
}

/// The same call `n` times over.
pub open spec fn repeated_call(c: HalCall, n: nat) -> Seq<HalCall> {
    Seq::new(n, |i: int| c)
}

/// The boundary as mathematical values.
#[verifier::ext_equal]
pub struct HalView {
    pub time_us: u64,
    pub usb_ready: bool,
    pub usb_suspended: bool,
    pub hid_ready_map: u8,
    pub usb_send_ok: bool,
    pub tx_busy: bool,
    pub bootsel_pressed: bool,
    pub running_image: Seq<u8>,
    pub kbd_queue_in: Seq<[u8; 8]>,
    pub mouse_queue_in: Seq<[u8; 8]>,
    pub outbound_queue_in: Seq<[u8; 10]>,
    pub hid_queue_in: Seq<[u8; 36]>,
    pub pt_build_fails: bool,
    pub host_upstream_vid_pid: (u16, u16),
    pub host_device_ids: Seq<(u8, u16, u16)>,
    pub host_set_report_ok: bool,
    pub watchdog_kicked: bool,
    pub rebooted: bool,
    pub bootloader_requested: bool,
    pub boot_flag_set: bool,
    pub remote_wakeups: u64,
    pub host_kbd_reports: Seq<(u8, u8, Seq<u8>)>,
    pub host_mouse_reports: Seq<(u8, u8, i16, i16, i8, i8)>,
    pub mouse_reports: Seq<[u8; 8]>,
    pub kbd_reports: Seq<[u8; 8]>,
    pub outbound_packets: Seq<[u8; 10]>,
    pub sent_values: Seq<(u8, u8)>,
    pub sent_packets: Seq<(Seq<u8>, u8)>,
    pub cc_packets: Seq<[u8; 4]>,
    pub system_packets: Seq<[u8; 2]>,
    pub config_packets: Seq<[u8; 10]>,
    pub config_saved: u64,
    pub config_loaded: u64,
    pub config_wiped: u64,
    pub blink_count: u64,
    pub toggle_count: u64,
    pub board_led: bool,
    pub keyboard_leds_set: Seq<u8>,
    pub kbd_led_reports: Seq<(u8, u8, u8)>,
    pub output_switched: Option<u8>,
    pub leds_synced: u64,
    pub debug_blinks: Seq<(i32, i32)>,
    pub dump_count: u64,
    pub transmitted: Seq<(Seq<u8>, u32)>,
    pub hid_sent: Seq<(u8, u8, Seq<u8>)>,
    pub hid_queued: Seq<(u8, u8, Seq<u8>)>,
    pub device_connect_count: u64,
    pub device_disconnect_count: u64,
    pub pt_config_desc_ready: bool,
    pub host_set_report_count: u64,
    pub host_set_reports: Seq<(u8, u8, u8, u8, Seq<u8>)>,
    pub report_rearms: Seq<(u8, u8)>,
    pub dma_buf: Seq<u8>,
    pub dma_write_pos: u32,
    pub dma_read_pos: u32,
    pub calls: Seq<HalCall>,
}

/// The hardware boundary: inputs the hardware reports, and the ledger of
/// operations requested from it.
pub struct Hal {
    // ---- inputs ----
    pub time_us: u64,
    pub usb_ready: bool,
    pub usb_suspended: bool,
    pub hid_ready_map: u8,
    pub usb_send_ok: bool,
    pub tx_busy: bool,
    pub bootsel_pressed: bool,
    /// The running-image word served for the address under request.
    /// The running firmware image as stored in flash; bytes past its end
    /// read as zero.
    pub running_image: Vec<u8>,
    pub kbd_queue_in: Vec<[u8; 8]>,
    pub mouse_queue_in: Vec<[u8; 8]>,
    pub outbound_queue_in: Vec<[u8; 10]>,
    pub hid_queue_in: Vec<[u8; 36]>,
    pub pt_build_fails: bool,
    /// The ids a device reports when it is not listed below.
    pub host_upstream_vid_pid: (u16, u16),
    /// Vendor and product ids of upstream devices, by device address.
    pub host_device_ids: Vec<(u8, u16, u16)>,
    pub host_set_report_ok: bool,
    // ---- ledger ----
    pub watchdog_kicked: bool,
    pub rebooted: bool,
    pub bootloader_requested: bool,
    pub boot_flag_set: bool,
    pub remote_wakeups: u64,
    pub host_kbd_reports: Vec<(u8, u8, Vec<u8>)>,
    pub host_mouse_reports: Vec<(u8, u8, i16, i16, i8, i8)>,
    pub mouse_reports: Vec<[u8; 8]>,
    pub kbd_reports: Vec<[u8; 8]>,
    pub outbound_packets: Vec<[u8; 10]>,
    pub sent_values: Vec<(u8, u8)>,
    pub sent_packets: Vec<(Vec<u8>, u8)>,
    pub cc_packets: Vec<[u8; 4]>,
    pub system_packets: Vec<[u8; 2]>,
    pub config_packets: Vec<[u8; 10]>,
    pub config_saved: u64,
    pub config_loaded: u64,
    pub config_wiped: u64,
    pub blink_count: u64,
    pub toggle_count: u64,
    pub board_led: bool,
    pub keyboard_leds_set: Vec<u8>,
    pub kbd_led_reports: Vec<(u8, u8, u8)>,
    pub output_switched: Option<u8>,
    pub leds_synced: u64,
    pub debug_blinks: Vec<(i32, i32)>,
    pub dump_count: u64,
    pub transmitted: Vec<(Vec<u8>, u32)>,
    pub hid_sent: Vec<(u8, u8, Vec<u8>)>,
    pub hid_queued: Vec<(u8, u8, Vec<u8>)>,
    pub device_connect_count: u64,
    pub device_disconnect_count: u64,
    pub pt_config_desc_ready: bool,
    pub host_set_report_count: u64,
    pub host_set_reports: Vec<(u8, u8, u8, u8, Vec<u8>)>,
    /// Host endpoints re-armed for reception, as (device address, instance).
    pub report_rearms: Vec<(u8, u8)>,
    /// The receive ring of the inter-board link; bytes past its end read
    /// as zero.
    pub dma_buf: Vec<u8>,
    pub dma_write_pos: u32,
    pub dma_read_pos: u32,
    /// Every operation asked of the boundary, in order (the receive
    /// cursor of the link, which only reads input, is not listed).
    pub calls: Vec<HalCall>,
}

pub open spec fn view_bytes_u8(s: Seq<(Vec<u8>, u8)>) -> Seq<(Seq<u8>, u8)> {
    s.map_values(|p: (Vec<u8>, u8)| (p.0@, p.1))
}

pub open spec fn view_bytes_u32(s: Seq<(Vec<u8>, u32)>) -> Seq<(Seq<u8>, u32)> {
    s.map_values(|p: (Vec<u8>, u32)| (p.0@, p.1))
}

pub open spec fn view_hid(s: Seq<(u8, u8, Vec<u8>)>) -> Seq<(u8, u8, Seq<u8>)> {
    s.map_values(|p: (u8, u8, Vec<u8>)| (p.0, p.1, p.2@))
}

pub open spec fn view_set_reports(s: Seq<(u8, u8, u8, u8, Vec<u8>)>) -> Seq<(u8, u8, u8, u8, Seq<u8>)> {
    s.map_values(|p: (u8, u8, u8, u8, Vec<u8>)| (p.0, p.1, p.2, p.3, p.4@))
}

impl View for Hal {
    type V = HalView;

    open spec fn view(&self) -> HalView {
        HalView {
            time_us: self.time_us,
            usb_ready: self.usb_ready,
            usb_suspended: self.usb_suspended,
            hid_ready_map: self.hid_ready_map,
            usb_send_ok: self.usb_send_ok,
            tx_busy: self.tx_busy,
            bootsel_pressed: self.bootsel_pressed,
            running_image: self.running_image@,
            kbd_queue_in: self.kbd_queue_in@,
            mouse_queue_in: self.mouse_queue_in@,
            outbound_queue_in: self.outbound_queue_in@,
            hid_queue_in: self.hid_queue_in@,
            pt_build_fails: self.pt_build_fails,
            host_upstream_vid_pid: self.host_upstream_vid_pid,
            host_device_ids: self.host_device_ids@,
            host_set_report_ok: self.host_set_report_ok,
            watchdog_kicked: self.watchdog_kicked,
            rebooted: self.rebooted,
            bootloader_requested: self.bootloader_requested,
            boot_flag_set: self.boot_flag_set,
            remote_wakeups: self.remote_wakeups,
            host_kbd_reports: view_hid(self.host_kbd_reports@),
            host_mouse_reports: self.host_mouse_reports@,
            mouse_reports: self.mouse_reports@,
            kbd_reports: self.kbd_reports@,
            outbound_packets: self.outbound_packets@,
            sent_values: self.sent_values@,
            sent_packets: view_bytes_u8(self.sent_packets@),
            cc_packets: self.cc_packets@,
            system_packets: self.system_packets@,
            config_packets: self.config_packets@,
            config_saved: self.config_saved,
            config_loaded: self.config_loaded,
            config_wiped: self.config_wiped,
            blink_count: self.blink_count,
            toggle_count: self.toggle_count,
            board_led: self.board_led,
            keyboard_leds_set: self.keyboard_leds_set@,
            kbd_led_reports: self.kbd_led_reports@,
            output_switched: self.output_switched,
            leds_synced: self.leds_synced,
            debug_blinks: self.debug_blinks@,
            dump_count: self.dump_count,
            transmitted: view_bytes_u32(self.transmitted@),
            hid_sent: view_hid(self.hid_sent@),
            hid_queued: view_hid(self.hid_queued@),
            device_connect_count: self.device_connect_count,
            device_disconnect_count: self.device_disconnect_count,
            pt_config_desc_ready: self.pt_config_desc_ready,
            host_set_report_count: self.host_set_report_count,
            host_set_reports: view_set_reports(self.host_set_reports@),
            report_rearms: self.report_rearms@,
            dma_buf: self.dma_buf@,
            dma_write_pos: self.dma_write_pos,
            dma_read_pos: self.dma_read_pos,
            calls: self.calls@,
        }
    }
}

/// The operations of the boundary on its mathematical view.
impl HalView {
    pub open spec fn hid_ready(self, instance: u8) -> bool {
        instance < 8 && (self.hid_ready_map >> instance) & 1 == 1
    }

    pub open spec fn kick(self) -> HalView {
        HalView { watchdog_kicked: true, calls: self.calls.push(HalCall::Kick), ..self }
    }

    pub open spec fn reboot(self) -> HalView {
        HalView { rebooted: true, calls: self.calls.push(HalCall::Reboot), ..self }
    }

    pub open spec fn reboot_to_bootloader(self) -> HalView {
        HalView { bootloader_requested: true, calls: self.calls.push(HalCall::RebootToBootloader), ..self }
    }

    pub open spec fn set_boot_flag(self) -> HalView {
        HalView { boot_flag_set: true, calls: self.calls.push(HalCall::SetBootFlag), ..self }
    }

    pub open spec fn remote_wakeup(self) -> HalView {
        HalView { remote_wakeups: bump(self.remote_wakeups), calls: self.calls.push(HalCall::RemoteWakeup), ..self }
    }

    pub open spec fn send_keyboard_report(self, report_id: u8, modifier: u8, keycode: Seq<u8>) -> HalView {
        if self.usb_send_ok {
            HalView { host_kbd_reports: self.host_kbd_reports.push((report_id, modifier, keycode)), calls: self.calls.push(HalCall::SendKeyboardReport), ..self }
        } else {
            HalView { calls: self.calls.push(HalCall::SendKeyboardReport), ..self }
        }
    }

    pub open spec fn send_mouse_report(self, mode: u8, buttons: u8, x: i16, y: i16, wheel: i8, pan: i8) -> HalView {
        if self.usb_send_ok {
            HalView { host_mouse_reports: self.host_mouse_reports.push((mode, buttons, x, y, wheel, pan)), calls: self.calls.push(HalCall::SendMouseReport), ..self }
        } else {
            HalView { calls: self.calls.push(HalCall::SendMouseReport), ..self }
        }
    }

    pub open spec fn push_mouse_report(self, r: [u8; 8]) -> HalView {
        HalView { mouse_reports: self.mouse_reports.push(r), calls: self.calls.push(HalCall::PushMouseReport), ..self }
    }

    pub open spec fn push_kbd_report(self, r: [u8; 8]) -> HalView {
        HalView { kbd_reports: self.kbd_reports.push(r), calls: self.calls.push(HalCall::PushKbdReport), ..self }
    }

    pub open spec fn pop_kbd_report(self) -> HalView {
        if self.kbd_queue_in.len() > 0 {
            HalView { kbd_queue_in: self.kbd_queue_in.drop_first(), calls: self.calls.push(HalCall::PopKbdReport), ..self }
        } else {
            HalView { calls: self.calls.push(HalCall::PopKbdReport), ..self }
        }
    }

    pub open spec fn pop_mouse_report(self) -> HalView {
        if self.mouse_queue_in.len() > 0 {
            HalView { mouse_queue_in: self.mouse_queue_in.drop_first(), calls: self.calls.push(HalCall::PopMouseReport), ..self }
        } else {
            HalView { calls: self.calls.push(HalCall::PopMouseReport), ..self }
        }
    }

    pub open spec fn pop_hid_report(self) -> HalView {
        if self.hid_queue_in.len() > 0 {
            HalView { hid_queue_in: self.hid_queue_in.drop_first(), calls: self.calls.push(HalCall::PopHidReport), ..self }
        } else {
            HalView { calls: self.calls.push(HalCall::PopHidReport), ..self }
        }
    }

    pub open spec fn send_hid_report(self, instance: u8, report_id: u8, data: Seq<u8>) -> HalView {
        if self.usb_send_ok {
            HalView { hid_sent: self.hid_sent.push((instance, report_id, data)), calls: self.calls.push(HalCall::SendHidReport), ..self }
        } else {
            HalView { calls: self.calls.push(HalCall::SendHidReport), ..self }
        }
    }

    pub open spec fn queue_hid_report(self, instance: u8, report_id: u8, data: Seq<u8>) -> HalView {
        HalView { hid_queued: self.hid_queued.push((instance, report_id, data)), calls: self.calls.push(HalCall::QueueHidReport), ..self }
    }

    pub open spec fn push_consumer_control(self, p: [u8; 4]) -> HalView {
        HalView { cc_packets: self.cc_packets.push(p), calls: self.calls.push(HalCall::PushConsumerControl), ..self }
    }

    pub open spec fn push_system_control(self, p: [u8; 2]) -> HalView {
        HalView { system_packets: self.system_packets.push(p), calls: self.calls.push(HalCall::PushSystemControl), ..self }
    }

    pub open spec fn push_config_packet(self, p: [u8; 10]) -> HalView {
        HalView { config_packets: self.config_packets.push(p), calls: self.calls.push(HalCall::PushConfigPacket), ..self }
    }

    pub open spec fn send_value(self, value: u8, packet_type: u8) -> HalView {
        HalView { sent_values: self.sent_values.push((value, packet_type)), calls: self.calls.push(HalCall::SendValue(value, packet_type)), ..self }
    }

    pub open spec fn send_packet(self, data: Seq<u8>, packet_type: u8) -> HalView {
        HalView { sent_packets: self.sent_packets.push((data, packet_type)), calls: self.calls.push(HalCall::SendPacket(packet_type)), ..self }
    }

    pub open spec fn enqueue(self, p: [u8; 10]) -> HalView {
        HalView { outbound_packets: self.outbound_packets.push(p), calls: self.calls.push(HalCall::Enqueue), ..self }
    }

    pub open spec fn dequeue(self) -> HalView {
        if self.outbound_queue_in.len() > 0 {
            HalView { outbound_queue_in: self.outbound_queue_in.drop_first(), calls: self.calls.push(HalCall::Dequeue), ..self }
        } else {
            HalView { calls: self.calls.push(HalCall::Dequeue), ..self }
        }
    }

    pub open spec fn transmit(self, buf: Seq<u8>) -> HalView {
        HalView { transmitted: self.transmitted.push((buf, buf.len() as u32)), calls: self.calls.push(HalCall::Transmit), ..self }
    }

    pub open spec fn save(self) -> HalView {
        HalView { config_saved: bump(self.config_saved), calls: self.calls.push(HalCall::Save), ..self }
    }

    pub open spec fn load(self) -> HalView {
        HalView { config_loaded: bump(self.config_loaded), calls: self.calls.push(HalCall::Load), ..self }
    }

    pub open spec fn wipe(self) -> HalView {
        HalView { config_wiped: bump(self.config_wiped), calls: self.calls.push(HalCall::Wipe), ..self }
    }

    pub open spec fn switch_output(self, o: u8) -> HalView {
        HalView { output_switched: Some(o), calls: self.calls.push(HalCall::SwitchOutput(o)), ..self }
    }

    pub open spec fn sync_leds(self) -> HalView {
        HalView { leds_synced: bump(self.leds_synced), calls: self.calls.push(HalCall::SyncLeds), ..self }
    }

    pub open spec fn blink(self) -> HalView {
        HalView { blink_count: bump(self.blink_count), calls: self.calls.push(HalCall::Blink), ..self }
    }

    pub open spec fn toggle(self) -> HalView {
        HalView { toggle_count: bump(self.toggle_count), board_led: !self.board_led, calls: self.calls.push(HalCall::Toggle), ..self }
    }

    pub open spec fn set_keyboard_leds(self, leds: u8) -> HalView {
        HalView { keyboard_leds_set: self.keyboard_leds_set.push(leds), calls: self.calls.push(HalCall::SetKeyboardLeds(leds)), ..self }
    }

    pub open spec fn set_board_led(self, on: bool) -> HalView {
        HalView { board_led: on, calls: self.calls.push(HalCall::SetBoardLed(on)), ..self }
    }

    pub open spec fn send_kbd_leds(self, dev_addr: u8, instance: u8, leds: u8) -> HalView {
        HalView { kbd_led_reports: self.kbd_led_reports.push((dev_addr, instance, leds)), calls: self.calls.push(HalCall::SendKbdLeds), ..self }
    }

    pub open spec fn blink_debug(self, count: i32, delay_ms: i32) -> HalView {
        HalView { debug_blinks: self.debug_blinks.push((count, delay_ms)), calls: self.calls.push(HalCall::BlinkDebug), ..self }
    }

    pub open spec fn dump_state(self) -> HalView {
        HalView { dump_count: bump(self.dump_count), calls: self.calls.push(HalCall::DumpState), ..self }
    }

    pub open spec fn send_set_report(self, dev_addr: u8, instance: u8, report_id: u8, report_type: u8, data: Seq<u8>) -> HalView {
        HalView {
            host_set_report_count: bump(self.host_set_report_count),
            host_set_reports: self.host_set_reports.push((dev_addr, instance, report_id, report_type, data)),
            calls: self.calls.push(HalCall::SendSetReport),
            ..self
        }
    }

    pub open spec fn receive_report(self, dev_addr: u8, instance: u8) -> HalView {
        HalView { report_rearms: self.report_rearms.push((dev_addr, instance)), calls: self.calls.push(HalCall::ReceiveReport), ..self }
    }

    pub open spec fn build_config_desc(self) -> HalView {
        HalView { pt_config_desc_ready: !self.pt_build_fails, calls: self.calls.push(HalCall::BuildConfigDesc), ..self }
    }

    pub open spec fn clear_config_desc(self) -> HalView {
        HalView { pt_config_desc_ready: false, calls: self.calls.push(HalCall::ClearConfigDesc), ..self }
    }

    pub open spec fn device_connect(self) -> HalView {
        HalView { device_connect_count: bump(self.device_connect_count), calls: self.calls.push(HalCall::DeviceConnect), ..self }
    }

    /// The vendor and product ids of the upstream device at an address: the
    /// first listed entry for it, else the default ids.
    pub open spec fn upstream_ids(self, dev_addr: u8) -> (u16, u16) {
        ids_for(self.host_device_ids, dev_addr, self.host_upstream_vid_pid)
    }

    /// The byte of the running image at an offset, zero past its end.
    pub open spec fn image_byte(self, i: int) -> u8 {
        if 0 <= i < self.running_image.len() { self.running_image[i] } else { 0 }
    }

    /// The running image's little-endian word at an address.
    pub open spec fn running_word(self, address: u32) -> u32 {
        let a = address as int;
        (self.image_byte(a) + self.image_byte(a + 1) * 256 + self.image_byte(a + 2) * 65536
            + self.image_byte(a + 3) * 16777216) as u32
    }

    /// The received byte at a ring position.
    pub open spec fn rx_byte(self, pos: u32) -> u8 {
        let i = (pos & RX_RING_MASK) as int;
        if i < self.dma_buf.len() { self.dma_buf[i] } else { 0 }
    }

    /// Whether a packet preamble starts at the read position.
    pub open spec fn rx_start(self) -> bool {
        self.rx_byte(self.dma_read_pos) == crate::constants::START1
            && self.rx_byte(self.dma_read_pos.wrapping_add(1)) == crate::constants::START2
    }

    /// The read position one byte on.
    pub open spec fn rx_advance(self) -> HalView {
        HalView { dma_read_pos: self.dma_read_pos.wrapping_add(1) & RX_RING_MASK, ..self }
    }

    /// The boundary after `n` bytes were skipped.
    pub open spec fn rx_advance_n(self, n: nat) -> HalView
        decreases n,
    {
        if n == 0 { self } else { self.rx_advance_n((n - 1) as nat).rx_advance() }
    }

    /// The ten packet bytes after the preamble at the read position.
    pub open spec fn rx_packet_bytes(self) -> Seq<u8> {
        Seq::new(10, |i: int| self.rx_byte(self.rx_advance_n((i + 2) as nat).dma_read_pos))
    }

    pub open spec fn device_disconnect(self) -> HalView {
        HalView { device_disconnect_count: bump(self.device_disconnect_count), calls: self.calls.push(HalCall::DeviceDisconnect), ..self }
    }
}

impl Hal {
    /// A boundary at time zero with the device side ready, every HID
    /// endpoint ready, sends succeeding, and empty queues and ledger.
    pub fn new() -> (h: Self)
        ensures
            h@.time_us == 0 && h@.usb_ready && !h@.usb_suspended && h@.hid_ready_map == 0xFF
                && h@.usb_send_ok && !h@.tx_busy && !h@.bootsel_pressed && h@.running_image.len() == 0,
            h@.kbd_queue_in.len() == 0 && h@.mouse_queue_in.len() == 0 && h@.outbound_queue_in.len() == 0
                && h@.hid_queue_in.len() == 0,
            !h@.pt_build_fails && h@.host_set_report_ok && h@.host_upstream_vid_pid == (0u16, 0u16),
            !h@.watchdog_kicked && !h@.rebooted && !h@.bootloader_requested && !h@.boot_flag_set,
            h@.mouse_reports.len() == 0 && h@.kbd_reports.len() == 0 && h@.outbound_packets.len() == 0
                && h@.sent_values.len() == 0 && h@.sent_packets.len() == 0 && h@.cc_packets.len() == 0
                && h@.system_packets.len() == 0 && h@.config_packets.len() == 0,
            h@.config_saved == 0 && h@.config_loaded == 0 && h@.config_wiped == 0 && h@.blink_count == 0
                && h@.toggle_count == 0 && !h@.board_led && h@.output_switched.is_none()
                && h@.leds_synced == 0,
            h@.transmitted.len() == 0 && h@.hid_sent.len() == 0 && h@.hid_queued.len() == 0,
            h@.device_connect_count == 0 && h@.device_disconnect_count == 0 && !h@.pt_config_desc_ready
                && h@.host_set_report_count == 0,
            h@.calls.len() == 0,
    {
        Hal {
            time_us: 0,
            usb_ready: true,
            usb_suspended: false,
            hid_ready_map: 0xFF,
            usb_send_ok: true,
            tx_busy: false,
            bootsel_pressed: false,
            running_image: Vec::new(),
            kbd_queue_in: Vec::new(),
            mouse_queue_in: Vec::new(),
            outbound_queue_in: Vec::new(),
            hid_queue_in: Vec::new(),
            pt_build_fails: false,
            host_upstream_vid_pid: (0, 0),
            host_device_ids: Vec::new(),
            host_set_report_ok: true,
            watchdog_kicked: false,
            rebooted: false,
            bootloader_requested: false,
            boot_flag_set: false,
            remote_wakeups: 0,
            host_kbd_reports: Vec::new(),
            host_mouse_reports: Vec::new(),
            mouse_reports: Vec::new(),
            kbd_reports: Vec::new(),
            outbound_packets: Vec::new(),
            sent_values: Vec::new(),
            sent_packets: Vec::new(),
            cc_packets: Vec::new(),
            system_packets: Vec::new(),
            config_packets: Vec::new(),
            config_saved: 0,
            config_loaded: 0,
            config_wiped: 0,
            blink_count: 0,
            toggle_count: 0,
            board_led: false,
            keyboard_leds_set: Vec::new(),
            kbd_led_reports: Vec::new(),
            output_switched: None,
            leds_synced: 0,
            debug_blinks: Vec::new(),
            dump_count: 0,
            transmitted: Vec::new(),
            hid_sent: Vec::new(),
            hid_queued: Vec::new(),
            device_connect_count: 0,
            device_disconnect_count: 0,
            pt_config_desc_ready: false,
            host_set_report_count: 0,
            host_set_reports: Vec::new(),
            report_rearms: Vec::new(),
            dma_buf: Vec::new(),
            dma_write_pos: 0,
            dma_read_pos: 0,
            calls: Vec::new(),
        }
    }

    /// Set the current time.
    pub fn set_time(&mut self, us: u64)
        ensures
            final(self)@ == (HalView { time_us: us, ..old(self)@ }),
    {
        self.time_us = us;
    }

    /// Advance the current time.
    pub fn advance_time(&mut self, us: u64)
        requires
            old(self)@.time_us + us <= u64::MAX,
        ensures
            final(self)@ == (HalView { time_us: (old(self)@.time_us + us) as u64, ..old(self)@ }),
    {
        self.time_us = self.time_us + us;
    }

    /// Send a keyboard LED state to a host-side keyboard (SET_REPORT).
    pub fn send_kbd_leds(&mut self, dev_addr: u8, instance: u8, leds: u8)
        ensures
            final(self)@ == old(self)@.send_kbd_leds(dev_addr, instance, leds),
    {
        self.calls.push(HalCall::SendKbdLeds);
        self.kbd_led_reports.push((dev_addr, instance, leds));
    }
}

impl Timer for Hal {
    fn now_us_64(&self) -> (r: u64)
        ensures
            r == self@.time_us,
    {
        self.time_us
    }

    fn now_us_32(&self) -> (r: u32)
        ensures
            r == self@.time_us as u32,
    {
        self.time_us as u32
    }
}

impl Watchdog for Hal {
    fn kick(&mut self)
        ensures
            final(self)@ == old(self)@.kick(),
    {
        self.calls.push(HalCall::Kick);
        self.watchdog_kicked = true;
    }

    fn reboot(&mut self)
        ensures
            final(self)@ == old(self)@.reboot(),
    {
        self.calls.push(HalCall::Reboot);
        self.rebooted = true;
    }

    fn reboot_to_bootloader(&mut self)
        ensures
            final(self)@ == old(self)@.reboot_to_bootloader(),
    {
        self.calls.push(HalCall::RebootToBootloader);
        self.bootloader_requested = true;
    }

    fn set_boot_flag(&mut self)
        ensures
            final(self)@ == old(self)@.set_boot_flag(),
    {
        self.calls.push(HalCall::SetBootFlag);
        self.boot_flag_set = true;
    }

    fn is_bootsel_pressed(&self) -> (r: bool)
        ensures
            r == self@.bootsel_pressed,
    {
        self.bootsel_pressed
    }
}

impl UsbDevice for Hal {
    fn is_ready(&self) -> (r: bool)
        ensures
            r == self@.usb_ready,
    {
        self.usb_ready
    }

    fn is_suspended(&self) -> (r: bool)
        ensures
            r == self@.usb_suspended,
    {
        self.usb_suspended
    }

    fn remote_wakeup(&mut self)
        ensures
            final(self)@ == old(self)@.remote_wakeup(),
    {
        self.calls.push(HalCall::RemoteWakeup);
        self.remote_wakeups = bump_exec(self.remote_wakeups);
    }

    fn hid_ready(&self, instance: u8) -> (r: bool)
        ensures
            r == self@.hid_ready(instance),
    {
        instance < 8 && (self.hid_ready_map >> instance) & 1 == 1
    }

    fn send_keyboard_report(&mut self, report_id: u8, modifier: u8, keycode: &[u8]) -> (r: bool)
        ensures
            r == old(self)@.usb_send_ok,
            final(self)@ == old(self)@.send_keyboard_report(report_id, modifier, keycode@),
    {
        self.calls.push(HalCall::SendKeyboardReport);
        if self.usb_send_ok {
            let v = vstd::slice::slice_to_vec(keycode);
            self.host_kbd_reports.push((report_id, modifier, v));
            proof { lemma_view_hid_push(old(self).host_kbd_reports@, (report_id, modifier, v)); }
        }
        self.usb_send_ok
    }

    fn send_mouse_report(&mut self, mode: u8, buttons: u8, x: i16, y: i16, wheel: i8, pan: i8) -> (r: bool)
        ensures
            r == old(self)@.usb_send_ok,
            final(self)@ == old(self)@.send_mouse_report(mode, buttons, x, y, wheel, pan),
    {
        self.calls.push(HalCall::SendMouseReport);
        if self.usb_send_ok {
            self.host_mouse_reports.push((mode, buttons, x, y, wheel, pan));
        }
        self.usb_send_ok
    }
}

pub proof fn lemma_view_hid_push(s: Seq<(u8, u8, Vec<u8>)>, x: (u8, u8, Vec<u8>))
    ensures
        view_hid(s.push(x)) == view_hid(s).push((x.0, x.1, x.2@)),
{
    assert(view_hid(s.push(x)) =~= view_hid(s).push((x.0, x.1, x.2@)));
}

pub proof fn lemma_view_bytes_u8_push(s: Seq<(Vec<u8>, u8)>, x: (Vec<u8>, u8))
    ensures
        view_bytes_u8(s.push(x)) == view_bytes_u8(s).push((x.0@, x.1)),
{
    assert(view_bytes_u8(s.push(x)) =~= view_bytes_u8(s).push((x.0@, x.1)));
}

pub proof fn lemma_view_bytes_u32_push(s: Seq<(Vec<u8>, u32)>, x: (Vec<u8>, u32))
    ensures
        view_bytes_u32(s.push(x)) == view_bytes_u32(s).push((x.0@, x.1)),
{
    assert(view_bytes_u32(s.push(x)) =~= view_bytes_u32(s).push((x.0@, x.1)));
}

pub proof fn lemma_view_set_reports_push(s: Seq<(u8, u8, u8, u8, Vec<u8>)>, x: (u8, u8, u8, u8, Vec<u8>))
    ensures
        view_set_reports(s.push(x)) == view_set_reports(s).push((x.0, x.1, x.2, x.3, x.4@)),
{
    assert(view_set_reports(s.push(x)) =~= view_set_reports(s).push((x.0, x.1, x.2, x.3, x.4@)));
}

impl ReportQueue for Hal {
    fn push_mouse_report(&mut self, report: [u8; 8])
        ensures
            final(self)@ == old(self)@.push_mouse_report(report),
    {
        self.calls.push(HalCall::PushMouseReport);
        self.mouse_reports.push(report);
    }

    fn push_kbd_report(&mut self, report: [u8; 8])
        ensures
            final(self)@ == old(self)@.push_kbd_report(report),
    {
        self.calls.push(HalCall::PushKbdReport);
        self.kbd_reports.push(report);
    }

    fn peek_kbd_report(&self, out: &mut [u8; 8]) -> (r: bool)
        ensures
            r == (self@.kbd_queue_in.len() > 0),
            r ==> *final(out) == self@.kbd_queue_in[0],
            !r ==> *final(out) == *old(out),
    {
        if self.kbd_queue_in.len() == 0 {
            return false;
        }
        *out = self.kbd_queue_in[0];
        true
    }

    fn pop_kbd_report(&mut self, out: &mut [u8; 8]) -> (r: bool)
        ensures
            r == (old(self)@.kbd_queue_in.len() > 0),
            r ==> *final(out) == old(self)@.kbd_queue_in[0],
            !r ==> *final(out) == *old(out),
            final(self)@ == old(self)@.pop_kbd_report(),
    {
        let r = if self.kbd_queue_in.len() == 0 {
            false
        } else {
            *out = self.kbd_queue_in.remove(0);
            assert(self.kbd_queue_in@ =~= old(self).kbd_queue_in@.drop_first());
            true
        };
        self.calls.push(HalCall::PopKbdReport);
        assert(self@ =~= old(self)@.pop_kbd_report());
        r
    }

    fn peek_mouse_report(&self, out: &mut [u8; 8]) -> (r: bool)
        ensures
            r == (self@.mouse_queue_in.len() > 0),
            r ==> *final(out) == self@.mouse_queue_in[0],
            !r ==> *final(out) == *old(out),
    {
        if self.mouse_queue_in.len() == 0 {
            return false;
        }
        *out = self.mouse_queue_in[0];
        true
    }

    fn pop_mouse_report(&mut self, out: &mut [u8; 8]) -> (r: bool)
        ensures
            r == (old(self)@.mouse_queue_in.len() > 0),
            r ==> *final(out) == old(self)@.mouse_queue_in[0],
            !r ==> *final(out) == *old(out),
            final(self)@ == old(self)@.pop_mouse_report(),
    {
        let r = if self.mouse_queue_in.len() == 0 {
            false
        } else {
            *out = self.mouse_queue_in.remove(0);
            assert(self.mouse_queue_in@ =~= old(self).mouse_queue_in@.drop_first());
            true
        };
        self.calls.push(HalCall::PopMouseReport);
        assert(self@ =~= old(self)@.pop_mouse_report());
        r
    }
}

impl HidQueue for Hal {
    fn peek_hid_report(&self, out: &mut [u8; 36]) -> (r: bool)
        ensures
            r == (self@.hid_queue_in.len() > 0),
            r ==> *final(out) == self@.hid_queue_in[0],
            !r ==> *final(out) == *old(out),
    {
        if self.hid_queue_in.len() == 0 {
            return false;
        }
        *out = self.hid_queue_in[0];
        true
    }

    fn pop_hid_report(&mut self, out: &mut [u8; 36]) -> (r: bool)
        ensures
            r == (old(self)@.hid_queue_in.len() > 0),
            r ==> *final(out) == old(self)@.hid_queue_in[0],
            !r ==> *final(out) == *old(out),
            final(self)@ == old(self)@.pop_hid_report(),
    {
        let r = if self.hid_queue_in.len() == 0 {
            false
        } else {
            *out = self.hid_queue_in.remove(0);
            assert(self.hid_queue_in@ =~= old(self).hid_queue_in@.drop_first());
            true
        };
        self.calls.push(HalCall::PopHidReport);
        assert(self@ =~= old(self)@.pop_hid_report());
        r
    }

    fn send_hid_report(&mut self, instance: u8, report_id: u8, data: &[u8]) -> (r: bool)
        ensures
            r == old(self)@.usb_send_ok,
            final(self)@ == old(self)@.send_hid_report(instance, report_id, data@),
    {
        self.calls.push(HalCall::SendHidReport);
        if self.usb_send_ok {
            let v = vstd::slice::slice_to_vec(data);
            self.hid_sent.push((instance, report_id, v));
            proof { lemma_view_hid_push(old(self).hid_sent@, (instance, report_id, v)); }
        }
        self.usb_send_ok
    }

    fn queue_hid_report(&mut self, instance: u8, report_id: u8, data: &[u8])
        ensures
            final(self)@ == old(self)@.queue_hid_report(instance, report_id, data@),
    {
        self.calls.push(HalCall::QueueHidReport);
        let v = vstd::slice::slice_to_vec(data);
        self.hid_queued.push((instance, report_id, v));
        proof { lemma_view_hid_push(old(self).hid_queued@, (instance, report_id, v)); }
    }
}

impl PacketQueue for Hal {
    fn push_consumer_control(&mut self, payload: [u8; 4])
        ensures
            final(self)@ == old(self)@.push_consumer_control(payload),
    {
        self.calls.push(HalCall::PushConsumerControl);
        self.cc_packets.push(payload);
    }

    fn push_system_control(&mut self, payload: [u8; 2])
        ensures
            final(self)@ == old(self)@.push_system_control(payload),
    {
        self.calls.push(HalCall::PushSystemControl);
        self.system_packets.push(payload);
    }

    fn push_config_packet(&mut self, packet: [u8; 10])
        ensures
            final(self)@ == old(self)@.push_config_packet(packet),
    {
        self.calls.push(HalCall::PushConfigPacket);
        self.config_packets.push(packet);
    }
}

impl PeerLink for Hal {
    fn send_value(&mut self, value: u8, packet_type: u8)
        ensures
            final(self)@ == old(self)@.send_value(value, packet_type),
    {
        self.calls.push(HalCall::SendValue(value, packet_type));
        self.sent_values.push((value, packet_type));
    }

    fn send_packet(&mut self, data: &[u8], packet_type: u8)
        ensures
            final(self)@ == old(self)@.send_packet(data@, packet_type),
    {
        self.calls.push(HalCall::SendPacket(packet_type));
        let v = vstd::slice::slice_to_vec(data);
        self.sent_packets.push((v, packet_type));
        proof { lemma_view_bytes_u8_push(old(self).sent_packets@, (v, packet_type)); }
    }

    fn enqueue(&mut self, packet: [u8; 10])
        ensures
            final(self)@ == old(self)@.enqueue(packet),
    {
        self.calls.push(HalCall::Enqueue);
        self.outbound_packets.push(packet);
    }

    fn dequeue(&mut self, out: &mut [u8; 10]) -> (r: bool)
        ensures
            r == (old(self)@.outbound_queue_in.len() > 0),
            r ==> *final(out) == old(self)@.outbound_queue_in[0],
            !r ==> *final(out) == *old(out),
            final(self)@ == old(self)@.dequeue(),
    {
        let r = if self.outbound_queue_in.len() == 0 {
            false
        } else {
            *out = self.outbound_queue_in.remove(0);
            assert(self.outbound_queue_in@ =~= old(self).outbound_queue_in@.drop_first());
            true
        };
        self.calls.push(HalCall::Dequeue);
        assert(self@ =~= old(self)@.dequeue());
        r
    }
}

impl Transfer for Hal {
    fn is_busy(&self) -> (r: bool)
        ensures
            r == self@.tx_busy,
    {
        self.tx_busy
    }

    fn transmit(&mut self, buf: &[u8])
        ensures
            final(self)@ == old(self)@.transmit(buf@),
    {
        self.calls.push(HalCall::Transmit);
        let v = vstd::slice::slice_to_vec(buf);
        let n = buf.len() as u32;
        self.transmitted.push((v, n));
        proof { lemma_view_bytes_u32_push(old(self).transmitted@, (v, n)); }
    }
}

impl ConfigStore for Hal {
    fn save(&mut self) -> (r: bool)
        ensures
            r,
            final(self)@ == old(self)@.save(),
    {
        self.calls.push(HalCall::Save);
        self.config_saved = bump_exec(self.config_saved);
        true
    }

    fn load(&mut self)
        ensures
            final(self)@ == old(self)@.load(),
    {
        self.calls.push(HalCall::Load);
        self.config_loaded = bump_exec(self.config_loaded);
    }

    fn wipe(&mut self)
        ensures
            final(self)@ == old(self)@.wipe(),
    {
        self.calls.push(HalCall::Wipe);
        self.config_wiped = bump_exec(self.config_wiped);
    }

    fn read_running_fw(&self, address: u32) -> (r: u32)
        ensures
            r == self@.running_word(address),
    {
        let a = address as u64;
        let b0 = self.image_byte_at(a) as u32;
        let b1 = self.image_byte_at(a + 1) as u32;
        let b2 = self.image_byte_at(a + 2) as u32;
        let b3 = self.image_byte_at(a + 3) as u32;
        b0 + b1 * 256 + b2 * 65536 + b3 * 16777216
    }
}

impl OutputControl for Hal {
    fn switch_output(&mut self, output: u8)
        ensures
            final(self)@ == old(self)@.switch_output(output),
    {
        self.calls.push(HalCall::SwitchOutput(output));
        self.output_switched = Some(output);
    }

    fn sync_leds(&mut self)
        ensures
            final(self)@ == old(self)@.sync_leds(),
    {
        self.calls.push(HalCall::SyncLeds);
        self.leds_synced = bump_exec(self.leds_synced);
    }
}

impl Indicator for Hal {
    fn blink(&mut self)
        ensures
            final(self)@ == old(self)@.blink(),
    {
        self.calls.push(HalCall::Blink);
        self.blink_count = bump_exec(self.blink_count);
    }

    fn toggle(&mut self) -> (r: bool)
        ensures
            final(self)@ == old(self)@.toggle(),
            r == final(self)@.board_led,
    {
        self.calls.push(HalCall::Toggle);
        self.toggle_count = bump_exec(self.toggle_count);
        self.board_led = !self.board_led;
        self.board_led
    }

    fn set_keyboard_leds(&mut self, leds: u8)
        ensures
            final(self)@ == old(self)@.set_keyboard_leds(leds),
    {
        self.calls.push(HalCall::SetKeyboardLeds(leds));
        self.keyboard_leds_set.push(leds);
    }

    fn set_board_led(&mut self, on: bool)
        ensures
            final(self)@ == old(self)@.set_board_led(on),
    {
        self.calls.push(HalCall::SetBoardLed(on));
        self.board_led = on;
    }
}

impl Trace for Hal {
    fn blink_debug(&mut self, count: i32, delay_ms: i32)
        ensures
            final(self)@ == old(self)@.blink_debug(count, delay_ms),
    {
        self.calls.push(HalCall::BlinkDebug);
        self.debug_blinks.push((count, delay_ms));
    }

    fn dump_state(&mut self)
        ensures
            final(self)@ == old(self)@.dump_state(),
    {
        self.calls.push(HalCall::DumpState);
        self.dump_count = bump_exec(self.dump_count);
    }
}

impl UsbHost for Hal {
    fn send_set_report(&mut self, dev_addr: u8, instance: u8, report_id: u8, report_type: u8, data: &[u8]) -> (r: bool)
        ensures
            r == old(self)@.host_set_report_ok,
            final(self)@ == old(self)@.send_set_report(dev_addr, instance, report_id, report_type, data@),
    {
        self.calls.push(HalCall::SendSetReport);
        self.host_set_report_count = bump_exec(self.host_set_report_count);
        let v = vstd::slice::slice_to_vec(data);
        self.host_set_reports.push((dev_addr, instance, report_id, report_type, v));
        proof {
            lemma_view_set_reports_push(old(self).host_set_reports@, (dev_addr, instance, report_id, report_type, v));
        }
        self.host_set_report_ok
    }

    fn get_upstream_vid_pid(&self, dev_addr: u8) -> (r: (u16, u16))
        ensures
            r == self@.upstream_ids(dev_addr),
    {
        let mut i: usize = 0;
        assert(self.host_device_ids@.skip(0) =~= self.host_device_ids@);
        while i < self.host_device_ids.len()
            invariant
                i <= self.host_device_ids@.len(),
                ids_for(self.host_device_ids@.skip(i as int), dev_addr, self.host_upstream_vid_pid)
                    == self@.upstream_ids(dev_addr),
            decreases self.host_device_ids@.len() - i,
        {
            let e = self.host_device_ids[i];
            assert(self.host_device_ids@.skip(i as int).drop_first() =~= self.host_device_ids@.skip(i as int + 1));
            if e.0 == dev_addr {
                return (e.1, e.2);
            }
            i = i + 1;
        }
        self.host_upstream_vid_pid
    }

    fn receive_report(&mut self, dev_addr: u8, instance: u8)
        ensures
            final(self)@ == old(self)@.receive_report(dev_addr, instance),
    {
        self.calls.push(HalCall::ReceiveReport);
        self.report_rearms.push((dev_addr, instance));
    }
}

impl PassthroughHal for Hal {
    fn build_config_desc(&mut self) -> (r: bool)
        ensures
            r == !old(self)@.pt_build_fails,
            final(self)@ == old(self)@.build_config_desc(),
    {
        self.calls.push(HalCall::BuildConfigDesc);
        self.pt_config_desc_ready = !self.pt_build_fails;
        self.pt_config_desc_ready
    }

    fn clear_config_desc(&mut self)
        ensures
            final(self)@ == old(self)@.clear_config_desc(),
    {
        self.calls.push(HalCall::ClearConfigDesc);
        self.pt_config_desc_ready = false;
    }

    fn device_connect(&mut self)
        ensures
            final(self)@ == old(self)@.device_connect(),
    {
        self.calls.push(HalCall::DeviceConnect);
        self.device_connect_count = bump_exec(self.device_connect_count);
    }

    fn device_disconnect(&mut self)
        ensures
            final(self)@ == old(self)@.device_disconnect(),
    {
        self.calls.push(HalCall::DeviceDisconnect);
        self.device_disconnect_count = bump_exec(self.device_disconnect_count);
    }
}

/// Skipping received bytes moves the read position only.
pub proof fn lemma_rx_advance_n_moves_read_only(h: HalView, n: nat)
    ensures
        h.rx_advance_n(n) == (HalView { dma_read_pos: h.rx_advance_n(n).dma_read_pos, ..h }),
    decreases n,
{
    if n > 0 {
        lemma_rx_advance_n_moves_read_only(h, (n - 1) as nat);
    }
}

impl DmaRx for Hal {
    fn dma_rx_current_pos(&self) -> (r: u32)
        ensures
            r == self@.dma_write_pos,
    {
        self.dma_write_pos
    }

    fn dma_rx_read_pos(&self) -> (r: u32)
        ensures
            r == self@.dma_read_pos,
    {
        self.dma_read_pos
    }

    fn dma_rx_advance_one(&mut self)
        ensures
            final(self)@ == old(self)@.rx_advance(),
    {
        self.dma_read_pos = self.dma_read_pos.wrapping_add(1) & RX_RING_MASK;
    }

    fn is_start_of_packet(&self) -> (r: bool)
        ensures
            r == self@.rx_start(),
    {
        let pos = self.dma_read_pos;
        self.rx_byte_at(pos) == crate::constants::START1 && self.rx_byte_at(pos.wrapping_add(1)) == crate::constants::START2
    }

    fn fetch_packet(&mut self) -> (b: [u8; 10])
        ensures
            b@ == old(self)@.rx_packet_bytes(),
            final(self)@ == old(self)@.rx_advance_n(12),
    {
        let mut b = [0u8; 10];
        let mut i: usize = 0;
        while i < 12
            invariant
                i <= 12,
                self@ == old(self)@.rx_advance_n(i as nat),
                forall|k: int| 0 <= k < 10 && k + 2 < i ==> b@[k] == old(self)@.rx_packet_bytes()[k],
            decreases 12 - i,
        {
            proof { lemma_rx_advance_n_moves_read_only(old(self)@, i as nat); }
            if i >= 2 {
                b[i - 2] = self.rx_byte_at(self.dma_read_pos);
                assert(old(self)@.rx_packet_bytes()[i - 2] == old(self)@.rx_byte(old(self)@.rx_advance_n(i as nat).dma_read_pos));
            }
            self.dma_read_pos = self.dma_read_pos.wrapping_add(1) & RX_RING_MASK;
            i = i + 1;
        }
        assert(b@ =~= old(self)@.rx_packet_bytes());
        b
    }
}

impl Hal {
    /// The byte of the running image at an offset.
    pub fn image_byte_at(&self, i: u64) -> (r: u8)
        ensures
            r == self@.image_byte(i as int),
    {
        if i < self.running_image.len() as u64 { self.running_image[i as usize] } else { 0 }
    }

    /// The received byte at a ring position.
    pub fn rx_byte_at(&self, pos: u32) -> (r: u8)
        ensures
            r == self@.rx_byte(pos),
    {
        let i = (pos & RX_RING_MASK) as usize;
        if i < self.dma_buf.len() { self.dma_buf[i] } else { 0 }
    }
}

} // verus!
