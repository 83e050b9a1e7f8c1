//! The configuration protocol: the table of numbered fields, their wire
//! encoding, and GET/SET requests on them.
use vstd::prelude::*;
use crate::bytes::{le32, u32_from_le};
use crate::constants::{packet_type_code, PacketType};
use crate::hal::{repeated_call, Hal, HalCall, HalView, PacketQueue, Timer};
use crate::structs::{BorderSize, Config, Device, DeviceConfig, Output, Screensaver};

verus! {

/// One field of the configuration protocol: its number, whether it can
/// only be read, and its length on the wire.
#[derive(Clone, Copy, Debug, PartialEq, Eq, Structural)]
pub struct FieldDef {
    pub idx: u8,
    pub readonly: bool,
    pub len: u8,
}

/// Number of fields in the table.
pub const FIELD_COUNT: usize = 46;

/// The field table, in protocol order.
pub open spec fn field_table() -> Seq<FieldDef> {
    seq![        FieldDef { idx: 0, readonly: true, len: 1 },
        FieldDef { idx: 1, readonly: true, len: 2 },
        FieldDef { idx: 2, readonly: true, len: 2 },
        FieldDef { idx: 3, readonly: true, len: 2 },
        FieldDef { idx: 10, readonly: false, len: 4 },
        FieldDef { idx: 11, readonly: false, len: 4 },
        FieldDef { idx: 12, readonly: false, len: 4 },
        FieldDef { idx: 13, readonly: false, len: 4 },
        FieldDef { idx: 14, readonly: false, len: 4 },
        FieldDef { idx: 15, readonly: false, len: 4 },
        FieldDef { idx: 16, readonly: false, len: 1 },
        FieldDef { idx: 17, readonly: false, len: 1 },
        FieldDef { idx: 18, readonly: false, len: 1 },
        FieldDef { idx: 19, readonly: false, len: 1 },
        FieldDef { idx: 20, readonly: false, len: 1 },
        FieldDef { idx: 21, readonly: false, len: 7 },
        FieldDef { idx: 22, readonly: false, len: 7 },
        FieldDef { idx: 40, readonly: false, len: 4 },
        FieldDef { idx: 41, readonly: false, len: 4 },
        FieldDef { idx: 42, readonly: false, len: 4 },
        FieldDef { idx: 43, readonly: false, len: 4 },
        FieldDef { idx: 44, readonly: false, len: 4 },
        FieldDef { idx: 45, readonly: false, len: 4 },
        FieldDef { idx: 46, readonly: false, len: 1 },
        FieldDef { idx: 47, readonly: false, len: 1 },
        FieldDef { idx: 48, readonly: false, len: 1 },
        FieldDef { idx: 49, readonly: false, len: 1 },
        FieldDef { idx: 50, readonly: false, len: 1 },
        FieldDef { idx: 51, readonly: false, len: 7 },
        FieldDef { idx: 52, readonly: false, len: 7 },
        FieldDef { idx: 70, readonly: false, len: 4 },
        FieldDef { idx: 71, readonly: false, len: 1 },
        FieldDef { idx: 72, readonly: false, len: 1 },
        FieldDef { idx: 73, readonly: false, len: 1 },
        FieldDef { idx: 74, readonly: false, len: 1 },
        FieldDef { idx: 75, readonly: false, len: 1 },
        FieldDef { idx: 76, readonly: false, len: 1 },
        FieldDef { idx: 77, readonly: false, len: 2 },
        FieldDef { idx: 78, readonly: true, len: 2 },
        FieldDef { idx: 79, readonly: true, len: 4 },
        FieldDef { idx: 80, readonly: true, len: 1 },
        FieldDef { idx: 81, readonly: true, len: 1 },
        FieldDef { idx: 82, readonly: true, len: 1 },
        FieldDef { idx: 83, readonly: false, len: 1 },
        FieldDef { idx: 84, readonly: false, len: 1 },
        FieldDef { idx: 85, readonly: false, len: 4 }    ]
}

/// The whole field table.
pub fn fields() -> (v: Vec<FieldDef>)
    ensures
        v@ == field_table(),
{
    let v = vec![        FieldDef { idx: 0, readonly: true, len: 1 },
        FieldDef { idx: 1, readonly: true, len: 2 },
        FieldDef { idx: 2, readonly: true, len: 2 },
        FieldDef { idx: 3, readonly: true, len: 2 },
        FieldDef { idx: 10, readonly: false, len: 4 },
        FieldDef { idx: 11, readonly: false, len: 4 },
        FieldDef { idx: 12, readonly: false, len: 4 },
        FieldDef { idx: 13, readonly: false, len: 4 },
        FieldDef { idx: 14, readonly: false, len: 4 },
        FieldDef { idx: 15, readonly: false, len: 4 },
        FieldDef { idx: 16, readonly: false, len: 1 },
        FieldDef { idx: 17, readonly: false, len: 1 },
        FieldDef { idx: 18, readonly: false, len: 1 },
        FieldDef { idx: 19, readonly: false, len: 1 },
        FieldDef { idx: 20, readonly: false, len: 1 },
        FieldDef { idx: 21, readonly: false, len: 7 },
        FieldDef { idx: 22, readonly: false, len: 7 },
        FieldDef { idx: 40, readonly: false, len: 4 },
        FieldDef { idx: 41, readonly: false, len: 4 },
        FieldDef { idx: 42, readonly: false, len: 4 },
        FieldDef { idx: 43, readonly: false, len: 4 },
        FieldDef { idx: 44, readonly: false, len: 4 },
        FieldDef { idx: 45, readonly: false, len: 4 },
        FieldDef { idx: 46, readonly: false, len: 1 },
        FieldDef { idx: 47, readonly: false, len: 1 },
        FieldDef { idx: 48, readonly: false, len: 1 },
        FieldDef { idx: 49, readonly: false, len: 1 },
        FieldDef { idx: 50, readonly: false, len: 1 },
        FieldDef { idx: 51, readonly: false, len: 7 },
        FieldDef { idx: 52, readonly: false, len: 7 },
        FieldDef { idx: 70, readonly: false, len: 4 },
        FieldDef { idx: 71, readonly: false, len: 1 },
        FieldDef { idx: 72, readonly: false, len: 1 },
        FieldDef { idx: 73, readonly: false, len: 1 },
        FieldDef { idx: 74, readonly: false, len: 1 },
        FieldDef { idx: 75, readonly: false, len: 1 },
        FieldDef { idx: 76, readonly: false, len: 1 },
        FieldDef { idx: 77, readonly: false, len: 2 },
        FieldDef { idx: 78, readonly: true, len: 2 },
        FieldDef { idx: 79, readonly: true, len: 4 },
        FieldDef { idx: 80, readonly: true, len: 1 },
        FieldDef { idx: 81, readonly: true, len: 1 },
        FieldDef { idx: 82, readonly: true, len: 1 },
        FieldDef { idx: 83, readonly: false, len: 1 },
        FieldDef { idx: 84, readonly: false, len: 1 },
        FieldDef { idx: 85, readonly: false, len: 4 }    ];
    assert(v@ =~= field_table());
    v
}

/// The first entry from position `i` on with field number `idx`.
pub open spec fn find_from(t: Seq<FieldDef>, idx: u8, i: int) -> Option<FieldDef>
    decreases t.len() - i,
{
    if i < 0 || i >= t.len() {
        None
    } else if t[i].idx == idx {
        Some(t[i])
    } else {
        find_from(t, idx, i + 1)
    }
}

/// The table entry with field number `idx`, if any.
pub open spec fn field_def(idx: u8) -> Option<FieldDef> {
    find_from(field_table(), idx, 0)
}

proof fn lemma_find_from_skip(t: Seq<FieldDef>, idx: u8, i: int, j: int)
    requires
        0 <= i <= j <= t.len(),
        forall|k: int| i <= k < j ==> t[k].idx != idx,
    ensures
        find_from(t, idx, i) == find_from(t, idx, j),
    decreases j - i,
{
    if i < j {
        lemma_find_from_skip(t, idx, i + 1, j);
    }
}

/// Look up a field by number.
pub fn find_field(api_idx: u8) -> (r: Option<FieldDef>)
    ensures
        r == field_def(api_idx),
{
    let t = fields();
    let mut i: usize = 0;
    while i < t.len()
        invariant
            i <= t@.len(),
            t@ == field_table(),
            forall|k: int| 0 <= k < i ==> t@[k].idx != api_idx,
        decreases t@.len() - i,
    {
        if t[i].idx == api_idx {
            proof { lemma_find_from_skip(t@, api_idx, 0, i as int); }
            return Some(t[i]);
        }
        i = i + 1;
    }
    proof { lemma_find_from_skip(t@, api_idx, 0, i as int); }
    None
}

/// Two little-endian bytes.
pub open spec fn b16(v: u16) -> Seq<u8> {
    seq![(v & 0xff) as u8, ((v >> 8u16) & 0xff) as u8]
}

/// Four little-endian bytes.
pub open spec fn b32(v: u32) -> Seq<u8> {
    le32(v)@
}

/// The low seven little-endian bytes of a 64-bit value.
pub open spec fn b56(v: u64) -> Seq<u8> {
    seq![
        (v & 0xff) as u8, ((v >> 8u64) & 0xff) as u8, ((v >> 16u64) & 0xff) as u8, ((v >> 24u64) & 0xff) as u8,
        ((v >> 32u64) & 0xff) as u8, ((v >> 40u64) & 0xff) as u8, ((v >> 48u64) & 0xff) as u8,
    ]
}

/// The 16-bit value of the first two bytes, little-endian.
pub open spec fn d16(d: Seq<u8>) -> u16 {
    (d[0] as u16) | ((d[1] as u16) << 8u16)
}

/// The 32-bit value of the first four bytes, little-endian.
pub open spec fn d32(d: Seq<u8>) -> u32 {
    u32_from_le([d[0], d[1], d[2], d[3]])
}

/// The value of the first seven bytes, little-endian, top byte zero.
pub open spec fn d56(d: Seq<u8>) -> u64 {
    (d[0] as u64) | ((d[1] as u64) << 8u64) | ((d[2] as u64) << 16u64) | ((d[3] as u64) << 24u64)
        | ((d[4] as u64) << 32u64) | ((d[5] as u64) << 40u64) | ((d[6] as u64) << 48u64)
}

/// Bytes of field `k` of an output's configuration.
pub open spec fn output_field_bytes(o: Output, k: int) -> Seq<u8> {
    if k == 0 {
        b32(o.number)
    } else if k == 1 {
        b32(o.screen_count)
    } else if k == 2 {
        b32(o.speed_x as u32)
    } else if k == 3 {
        b32(o.speed_y as u32)
    } else if k == 4 {
        b32(o.border.top as u32)
    } else if k == 5 {
        b32(o.border.bottom as u32)
    } else if k == 6 {
        seq![o.os]
    } else if k == 7 {
        seq![o.pos]
    } else if k == 8 {
        seq![o.mouse_park_pos]
    } else if k == 9 {
        seq![o.screensaver.mode]
    } else if k == 10 {
        seq![o.screensaver.only_if_inactive]
    } else if k == 11 {
        b56(o.screensaver.idle_time_us)
    } else if k == 12 {
        b56(o.screensaver.max_time_us)
    } else {
        Seq::empty()
    }
}

/// An output's configuration with field `k` set from the bytes `d`.
pub open spec fn output_with_field(o: Output, k: int, d: Seq<u8>) -> Output {
    if k == 0 {
        Output { number: d32(d), ..o }
    } else if k == 1 {
        Output { screen_count: d32(d), ..o }
    } else if k == 2 {
        Output { speed_x: d32(d) as i32, ..o }
    } else if k == 3 {
        Output { speed_y: d32(d) as i32, ..o }
    } else if k == 4 {
        Output { border: BorderSize { top: d32(d) as i32, ..o.border }, ..o }
    } else if k == 5 {
        Output { border: BorderSize { bottom: d32(d) as i32, ..o.border }, ..o }
    } else if k == 6 {
        Output { os: d[0], ..o }
    } else if k == 7 {
        Output { pos: d[0], ..o }
    } else if k == 8 {
        Output { mouse_park_pos: d[0], ..o }
    } else if k == 9 {
        Output { screensaver: Screensaver { mode: d[0], ..o.screensaver }, ..o }
    } else if k == 10 {
        Output { screensaver: Screensaver { only_if_inactive: d[0], ..o.screensaver }, ..o }
    } else if k == 11 {
        Output { screensaver: Screensaver { idle_time_us: d56(d), ..o.screensaver }, ..o }
    } else if k == 12 {
        Output { screensaver: Screensaver { max_time_us: d56(d), ..o.screensaver }, ..o }
    } else {
        o
    }
}

/// The bytes a GET of field `idx` returns: empty for an unknown field.
pub open spec fn field_bytes(s: Device, idx: u8) -> Seq<u8> {
    if 10 <= idx <= 22 {
        output_field_bytes(s.cfg.config.output[0], idx - 10)
    } else if 40 <= idx <= 52 {
        output_field_bytes(s.cfg.config.output[1], idx - 40)
    } else if idx == 0 {
        seq![s.cfg.active_output]
    } else if idx == 1 {
        b16(s.hid.pointer_x as u16)
    } else if idx == 2 {
        b16(s.hid.pointer_y as u16)
    } else if idx == 3 {
        b16(s.hid.mouse_buttons as u16)
    } else if idx == 70 {
        b32(s.cfg.config.version)
    } else if idx == 71 {
        seq![s.cfg.config.force_mouse_boot_mode]
    } else if idx == 72 {
        seq![s.cfg.config.force_kbd_boot_protocol]
    } else if idx == 73 {
        seq![s.cfg.config.kbd_led_as_indicator]
    } else if idx == 74 {
        seq![s.cfg.config.hotkey_toggle]
    } else if idx == 75 {
        seq![s.cfg.config.enable_acceleration]
    } else if idx == 76 {
        seq![s.cfg.config.enforce_ports]
    } else if idx == 77 {
        b16(s.cfg.config.jump_threshold)
    } else if idx == 78 {
        b16(s.fw.running_fw.version)
    } else if idx == 79 {
        b32(s.fw.running_fw.checksum)
    } else if idx == 80 {
        seq![if s.cfg.keyboard_connected { 1u8 } else { 0u8 }]
    } else if idx == 81 {
        seq![if s.cfg.switch_lock { 1u8 } else { 0u8 }]
    } else if idx == 82 {
        seq![if s.cfg.relative_mouse { 1u8 } else { 0u8 }]
    } else if idx == 83 {
        seq![s.cfg.config.passthrough_enabled]
    } else if idx == 84 {
        seq![s.cfg.config.gaming_mode_default]
    } else if idx == 85 {
        b32(s.cfg.config.smartshift_double_click_ms)
    } else {
        Seq::empty()
    }
}

/// A configuration with top-level field `idx` set from the bytes `d`.
pub open spec fn config_with_field(c: Config, idx: u8, d: Seq<u8>) -> Config {
    if idx == 70 {
        Config { version: d32(d), ..c }
    } else if idx == 71 {
        Config { force_mouse_boot_mode: d[0], ..c }
    } else if idx == 72 {
        Config { force_kbd_boot_protocol: d[0], ..c }
    } else if idx == 73 {
        Config { kbd_led_as_indicator: d[0], ..c }
    } else if idx == 74 {
        Config { hotkey_toggle: d[0], ..c }
    } else if idx == 75 {
        Config { enable_acceleration: d[0], ..c }
    } else if idx == 76 {
        Config { enforce_ports: d[0], ..c }
    } else if idx == 77 {
        Config { jump_threshold: d16(d), ..c }
    } else if idx == 83 {
        Config { passthrough_enabled: d[0], ..c }
    } else if idx == 84 {
        Config { gaming_mode_default: d[0], ..c }
    } else if idx == 85 {
        Config { smartshift_double_click_ms: d32(d), ..c }
    } else {
        c
    }
}

/// The board state after a SET of field `idx` with the bytes `d`: only
/// writable fields change.
pub open spec fn write_field_spec(s: Device, idx: u8, d: Seq<u8>) -> Device {
    if 10 <= idx <= 22 {
        s.with_output(0, output_with_field(s.cfg.config.output[0], idx - 10, d))
    } else if 40 <= idx <= 52 {
        s.with_output(1, output_with_field(s.cfg.config.output[1], idx - 40, d))
    } else {
        Device { cfg: DeviceConfig { config: config_with_field(s.cfg.config, idx, d), ..s.cfg }, ..s }
    }
}

/// Length of field `k` of an output's configuration.
pub open spec fn output_field_len(k: int) -> int {
    if 0 <= k <= 5 {
        4
    } else if 6 <= k <= 10 {
        1
    } else if 11 <= k <= 12 {
        7
    } else {
        0
    }
}

/// Number of payload bytes a SET of field `idx` reads.
pub open spec fn write_len(idx: u8) -> int {
    if 10 <= idx <= 22 {
        output_field_len(idx - 10)
    } else if 40 <= idx <= 52 {
        output_field_len(idx - 40)
    } else if idx == 70 || idx == 85 {
        4
    } else if idx == 77 {
        2
    } else if 71 <= idx <= 76 || idx == 83 || idx == 84 {
        1
    } else {
        0
    }
}

fn put8(out: &mut [u8], v: u8)
    requires
        old(out)@.len() >= 1,
    ensures
        final(out)@ == seq![v] + old(out)@.skip(1),
{
    out[0] = v;
    assert(out@ =~= seq![v] + old(out)@.skip(1));
}

fn put16(out: &mut [u8], v: u16)
    requires
        old(out)@.len() >= 2,
    ensures
        final(out)@ == b16(v) + old(out)@.skip(2),
{
    out[0] = (v & 0xff) as u8;
    out[1] = ((v >> 8u16) & 0xff) as u8;
    assert(out@ =~= b16(v) + old(out)@.skip(2));
}

fn put32(out: &mut [u8], v: u32)
    requires
        old(out)@.len() >= 4,
    ensures
        final(out)@ == b32(v) + old(out)@.skip(4),
{
    out[0] = (v & 0xff) as u8;
    out[1] = ((v >> 8u32) & 0xff) as u8;
    out[2] = ((v >> 16u32) & 0xff) as u8;
    out[3] = ((v >> 24u32) & 0xff) as u8;
    assert(out@ =~= b32(v) + old(out)@.skip(4));
}

fn put56(out: &mut [u8], v: u64)
    requires
        old(out)@.len() >= 7,
    ensures
        final(out)@ == b56(v) + old(out)@.skip(7),
{
    out[0] = (v & 0xff) as u8;
    out[1] = ((v >> 8u64) & 0xff) as u8;
    out[2] = ((v >> 16u64) & 0xff) as u8;
    out[3] = ((v >> 24u64) & 0xff) as u8;
    out[4] = ((v >> 32u64) & 0xff) as u8;
    out[5] = ((v >> 40u64) & 0xff) as u8;
    out[6] = ((v >> 48u64) & 0xff) as u8;
    assert(out@ =~= b56(v) + old(out)@.skip(7));
}

fn get16(data: &[u8]) -> (v: u16)
    requires
        data@.len() >= 2,
    ensures
        v == d16(data@),
{
    (data[0] as u16) | ((data[1] as u16) << 8u16)
}

fn get32(data: &[u8]) -> (v: u32)
    requires
        data@.len() >= 4,
    ensures
        v == d32(data@),
{
    (data[0] as u32) | ((data[1] as u32) << 8u32) | ((data[2] as u32) << 16u32) | ((data[3] as u32) << 24u32)
}

fn get56(data: &[u8]) -> (v: u64)
    requires
        data@.len() >= 7,
    ensures
        v == d56(data@),
{
    (data[0] as u64) | ((data[1] as u64) << 8u64) | ((data[2] as u64) << 16u64) | ((data[3] as u64) << 24u64)
        | ((data[4] as u64) << 32u64) | ((data[5] as u64) << 40u64) | ((data[6] as u64) << 48u64)
}

fn read_output_field(o: &Output, k: u8, out: &mut [u8])
    requires
        k < 13,
        old(out)@.len() >= output_field_bytes(*o, k as int).len(),
    ensures
        final(out)@ == output_field_bytes(*o, k as int) + old(out)@.skip(output_field_bytes(*o, k as int).len() as int),
{
    match k {
        0 => put32(out, o.number),
        1 => put32(out, o.screen_count),
        2 => put32(out, o.speed_x as u32),
        3 => put32(out, o.speed_y as u32),
        4 => put32(out, o.border.top as u32),
        5 => put32(out, o.border.bottom as u32),
        6 => put8(out, o.os),
        7 => put8(out, o.pos),
        8 => put8(out, o.mouse_park_pos),
        9 => put8(out, o.screensaver.mode),
        10 => put8(out, o.screensaver.only_if_inactive),
        11 => put56(out, o.screensaver.idle_time_us),
        12 => put56(out, o.screensaver.max_time_us),
        _ => {},
    }
}

fn write_output_field(o: &mut Output, k: u8, data: &[u8])
    requires
        k < 13,
        data@.len() >= output_field_len(k as int),
    ensures
        *final(o) == output_with_field(*old(o), k as int, data@),
{
    match k {
        0 => o.number = get32(data),
        1 => o.screen_count = get32(data),
        2 => o.speed_x = get32(data) as i32,
        3 => o.speed_y = get32(data) as i32,
        4 => o.border.top = get32(data) as i32,
        5 => o.border.bottom = get32(data) as i32,
        6 => o.os = data[0],
        7 => o.pos = data[0],
        8 => o.mouse_park_pos = data[0],
        9 => o.screensaver.mode = data[0],
        10 => o.screensaver.only_if_inactive = data[0],
        11 => o.screensaver.idle_time_us = get56(data),
        12 => o.screensaver.max_time_us = get56(data),
        _ => {},
    }
}

/// Read field `idx` into the front of `out`, which must have room for it;
/// an unknown field leaves it as is.
pub fn read_field(state: &Device, idx: u8, out: &mut [u8])
    requires
        old(out)@.len() >= field_bytes(*state, idx).len(),
    ensures
        final(out)@ == field_bytes(*state, idx) + old(out)@.skip(field_bytes(*state, idx).len() as int),
{
    if 10 <= idx && idx <= 22 {
        read_output_field(&state.cfg.config.output[0], idx - 10, out);
        return;
    }
    if 40 <= idx && idx <= 52 {
        read_output_field(&state.cfg.config.output[1], idx - 40, out);
        return;
    }
    match idx {
        0 => put8(out, state.cfg.active_output),
        1 => put16(out, state.hid.pointer_x as u16),
        2 => put16(out, state.hid.pointer_y as u16),
        3 => put16(out, state.hid.mouse_buttons as u16),
        70 => put32(out, state.cfg.config.version),
        71 => put8(out, state.cfg.config.force_mouse_boot_mode),
        72 => put8(out, state.cfg.config.force_kbd_boot_protocol),
        73 => put8(out, state.cfg.config.kbd_led_as_indicator),
        74 => put8(out, state.cfg.config.hotkey_toggle),
        75 => put8(out, state.cfg.config.enable_acceleration),
        76 => put8(out, state.cfg.config.enforce_ports),
        77 => put16(out, state.cfg.config.jump_threshold),
        78 => put16(out, state.fw.running_fw.version),
        79 => put32(out, state.fw.running_fw.checksum),
        80 => put8(out, if state.cfg.keyboard_connected { 1u8 } else { 0u8 }),
        81 => put8(out, if state.cfg.switch_lock { 1u8 } else { 0u8 }),
        82 => put8(out, if state.cfg.relative_mouse { 1u8 } else { 0u8 }),
        83 => put8(out, state.cfg.config.passthrough_enabled),
        84 => put8(out, state.cfg.config.gaming_mode_default),
        85 => put32(out, state.cfg.config.smartshift_double_click_ms),
        _ => {
            assert(old(out)@.skip(0) =~= old(out)@);
        },
    }
}

fn write_config_field(c: &mut Config, idx: u8, data: &[u8])
    requires
        data@.len() >= write_len(idx),
        !(10 <= idx <= 22 || 40 <= idx <= 52),
    ensures
        *final(c) == config_with_field(*old(c), idx, data@),
{
    match idx {
        70 => c.version = get32(data),
        71 => c.force_mouse_boot_mode = data[0],
        72 => c.force_kbd_boot_protocol = data[0],
        73 => c.kbd_led_as_indicator = data[0],
        74 => c.hotkey_toggle = data[0],
        75 => c.enable_acceleration = data[0],
        76 => c.enforce_ports = data[0],
        77 => c.jump_threshold = get16(data),
        83 => c.passthrough_enabled = data[0],
        84 => c.gaming_mode_default = data[0],
        85 => c.smartshift_double_click_ms = get32(data),
        _ => {},
    }
}

fn write_output_of(state: &mut Device, which: usize, k: u8, data: &[u8])
    requires
        which < 2,
        k < 13,
        data@.len() >= output_field_len(k as int),
    ensures
        *final(state) == old(state).with_output(
            which as int,
            output_with_field(old(state).cfg.config.output[which as int], k as int, data@),
        ),
{
    write_output_field(&mut state.cfg.config.output[which], k, data);
    assert(state.cfg.config.output =~= old(state).with_output(
        which as int,
        output_with_field(old(state).cfg.config.output[which as int], k as int, data@),
    ).cfg.config.output);
}

/// Set field `idx` from the front of `data`; a read-only or unknown field
/// is left as is.
pub fn write_field(state: &mut Device, idx: u8, data: &[u8])
    requires
        data@.len() >= write_len(idx),
    ensures
        *final(state) == write_field_spec(*old(state), idx, data@),
{
    if 10 <= idx && idx <= 22 {
        write_output_of(state, 0, idx - 10, data);
    } else if 40 <= idx && idx <= 52 {
        write_output_of(state, 1, idx - 40, data);
    } else {
        write_config_field(&mut state.cfg.config, idx, data);
    }
}

/// Payload bytes padded with zeros to eight.
pub open spec fn padded8(b: Seq<u8>) -> Seq<u8> {
    b + Seq::new((8 - b.len()) as nat, |i: int| 0u8)
}

/// The reply to a GET of field `idx`: the request type, the field number,
/// then the field's bytes padded with zeros.
pub open spec fn get_response(s: Device, idx: u8) -> [u8; 10] {
    let b = padded8(field_bytes(s, idx));
    [packet_type_code(PacketType::GetVal), idx, b[0], b[1], b[2], b[3], b[4], b[5], b[6], b[7]]
}

/// How long configuration mode stays open after a request.
pub const CONFIG_MODE_TIMEOUT_US: u64 = 300_000_000;

/// What a configuration request does. Unknown fields and SETs of read-only
/// fields are ignored; any other request keeps configuration mode open.
pub open spec fn api_msg_effect(s: Device, h: HalView, ptype: u8, idx: u8, d: Seq<u8>) -> (Device, HalView) {
    match field_def(idx) {
        None => (s, h),
        Some(f) => if ptype == packet_type_code(PacketType::SetVal) && f.readonly {
            (s, h)
        } else {
            let s1 = if ptype == packet_type_code(PacketType::SetVal) { write_field_spec(s, idx, d) } else { s };
            let h1 = if ptype == packet_type_code(PacketType::GetVal) { h.push_config_packet(get_response(s, idx)) } else { h };
            (Device { cfg: DeviceConfig { config_mode_timer: (h.time_us + CONFIG_MODE_TIMEOUT_US) as u64, ..s1.cfg }, ..s1 }, h1)
        },
    }
}

/// Handle one configuration request (GET or SET).
#[verifier::rlimit(40)]
pub fn handle_api_msg(state: &mut Device, hal: &mut Hal, ptype: u8, api_idx: u8, data: &[u8])
    requires
        old(hal)@.time_us <= u64::MAX - CONFIG_MODE_TIMEOUT_US,
        data@.len() >= write_len(api_idx),
    ensures
        (*final(state), final(hal)@) == api_msg_effect(*old(state), old(hal)@, ptype, api_idx, data@),
{
    let field = match find_field(api_idx) {
        Some(f) => f,
        None => return,
    };
    let set_val = PacketType::SetVal.to_u8();
    let get_val = PacketType::GetVal.to_u8();
    if ptype == set_val {
        if field.readonly {
            return;
        }
        write_field(state, api_idx, data);
    } else if ptype == get_val {
        let mut body = [0u8; 8];
        proof { lemma_field_bytes_fit(*state, api_idx); }
        read_field(state, api_idx, &mut body);
        let response = [get_val, api_idx, body[0], body[1], body[2], body[3], body[4], body[5], body[6], body[7]];
        proof {
            let b = field_bytes(*old(state), api_idx);
            assert(body@ =~= padded8(b));
            assert(response =~= get_response(*old(state), api_idx));
        }
        hal.push_config_packet(response);
    }
    state.cfg.config_mode_timer = hal.now_us_64() + CONFIG_MODE_TIMEOUT_US;
}

proof fn lemma_field_bytes_fit(s: Device, idx: u8)
    ensures
        field_bytes(s, idx).len() <= 8,
{
}

proof fn lemma_find_from_some(t: Seq<FieldDef>, x: u8, j: int, k: int)
    requires
        0 <= j <= k < t.len(),
        t[k].idx == x,
    ensures
        find_from(t, x, j) is Some,
    decreases k - j,
{
    if t[j].idx != x {
        lemma_find_from_some(t, x, j + 1, k);
    }
}

/// The replies a full read of the table sends, in table order.
pub open spec fn read_all_responses(s: Device, n: int) -> Seq<[u8; 10]> {
    Seq::new(n as nat, |i: int| get_response(s, field_table()[i].idx))
}

proof fn lemma_field_bytes_ignore_timer(s: Device, t: u64, idx: u8)
    ensures
        field_bytes(Device { cfg: DeviceConfig { config_mode_timer: t, ..s.cfg }, ..s }, idx) == field_bytes(s, idx),
{
}

/// Answer a GET for every field of the table, in order.
#[verifier::rlimit(60)]
pub fn handle_api_read_all(state: &mut Device, hal: &mut Hal)
    requires
        old(hal)@.time_us <= u64::MAX - CONFIG_MODE_TIMEOUT_US,
    ensures
        final(hal)@ == (HalView {
            config_packets: old(hal)@.config_packets + read_all_responses(*old(state), FIELD_COUNT as int),
            calls: old(hal)@.calls + repeated_call(HalCall::PushConfigPacket, FIELD_COUNT as nat),
            ..old(hal)@
        }),
        *final(state) == (Device {
            cfg: DeviceConfig { config_mode_timer: (old(hal)@.time_us + CONFIG_MODE_TIMEOUT_US) as u64, ..old(state).cfg },
            ..*old(state)
        }),
{
    let t = fields();
    let mut i: usize = 0;
    while i < t.len()
        invariant
            i <= t@.len(),
            t@ == field_table(),
            old(hal)@.time_us <= u64::MAX - CONFIG_MODE_TIMEOUT_US,
            hal@ == (HalView {
                config_packets: old(hal)@.config_packets + read_all_responses(*old(state), i as int),
                calls: old(hal)@.calls + repeated_call(HalCall::PushConfigPacket, i as nat),
                ..old(hal)@
            }),
            *state == (Device {
                cfg: DeviceConfig {
                    config_mode_timer: if i == 0 { old(state).cfg.config_mode_timer } else { (old(hal)@.time_us + CONFIG_MODE_TIMEOUT_US) as u64 },
                    ..old(state).cfg
                },
                ..*old(state)
            }),
        decreases t@.len() - i,
    {
        let f = t[i];
        let req = [f.idx, 0u8, 0, 0, 0, 0, 0, 0];
        proof {
            lemma_find_from_some(t@, f.idx, 0, i as int);
            lemma_field_bytes_ignore_timer(*old(state), state.cfg.config_mode_timer, f.idx);
        }
        handle_api_msg(state, hal, PacketType::GetVal.to_u8(), f.idx, req.as_slice());
        assert(hal@.config_packets =~= old(hal)@.config_packets + read_all_responses(*old(state), i as int + 1));
        assert(hal@.calls =~= old(hal)@.calls + repeated_call(HalCall::PushConfigPacket, (i + 1) as nat));
        i = i + 1;
    }
}

proof fn lemma_b16_d16(d: Seq<u8>)
    requires
        d.len() >= 2,
    ensures
        b16(d16(d)) == d.take(2),
{
    let (a, b) = (d[0], d[1]);
    assert((((a as u16) | ((b as u16) << 8u16)) & 0xff) as u8 == a) by (bit_vector);
    assert(((((a as u16) | ((b as u16) << 8u16)) >> 8u16) & 0xff) as u8 == b) by (bit_vector);
    assert(b16(d16(d)) =~= d.take(2));
}

proof fn lemma_b32_d32(d: Seq<u8>)
    requires
        d.len() >= 4,
    ensures
        b32(d32(d)) == d.take(4),
{
    let (a, b, c, e) = (d[0], d[1], d[2], d[3]);
    let v = (a as u32) | ((b as u32) << 8u32) | ((c as u32) << 16u32) | ((e as u32) << 24u32);
    assert((v & 0xff) as u8 == a && ((v >> 8u32) & 0xff) as u8 == b && ((v >> 16u32) & 0xff) as u8 == c
        && ((v >> 24u32) & 0xff) as u8 == e) by (bit_vector)
        requires
            v == (a as u32) | ((b as u32) << 8u32) | ((c as u32) << 16u32) | ((e as u32) << 24u32),
    ;
    assert(b32(d32(d)) =~= d.take(4));
}

proof fn lemma_b56_d56(d: Seq<u8>)
    requires
        d.len() >= 7,
    ensures
        b56(d56(d)) == d.take(7),
{
    let (a0, a1, a2, a3, a4, a5, a6) = (d[0], d[1], d[2], d[3], d[4], d[5], d[6]);
    let v = d56(d);
    assert((v & 0xff) as u8 == a0 && ((v >> 8u64) & 0xff) as u8 == a1 && ((v >> 16u64) & 0xff) as u8 == a2
        && ((v >> 24u64) & 0xff) as u8 == a3 && ((v >> 32u64) & 0xff) as u8 == a4
        && ((v >> 40u64) & 0xff) as u8 == a5 && ((v >> 48u64) & 0xff) as u8 == a6) by (bit_vector)
        requires
            v == (a0 as u64) | ((a1 as u64) << 8u64) | ((a2 as u64) << 16u64) | ((a3 as u64) << 24u64)
                | ((a4 as u64) << 32u64) | ((a5 as u64) << 40u64) | ((a6 as u64) << 48u64),
    ;
    assert(b56(d56(d)) =~= d.take(7));
}

proof fn lemma_u32_i32_u32(x: u32)
    ensures
        (x as i32) as u32 == x,
{
    assert((x as i32) as u32 == x) by (bit_vector);
}

proof fn lemma_output_roundtrip(o: Output, k: int, d: Seq<u8>)
    requires
        0 <= k < 13,
        d.len() >= output_field_len(k),
    ensures
        output_field_bytes(output_with_field(o, k, d), k) == d.take(output_field_len(k)),
{
    if k <= 5 {
        lemma_b32_d32(d);
        lemma_u32_i32_u32(d32(d));
    } else if k <= 10 {
        assert(seq![d[0]] =~= d.take(1));
    } else {
        lemma_b56_d56(d);
    }
}

/// A GET of a writable field after a SET of it gives back the bytes that
/// were set.
pub proof fn lemma_write_read_roundtrip(s: Device, idx: u8, d: Seq<u8>)
    requires
        field_def(idx) is Some,
        !field_def(idx).unwrap().readonly,
        d.len() >= write_len(idx),
    ensures
        field_bytes(write_field_spec(s, idx, d), idx) == d.take(write_len(idx)),
{
    reveal_with_fuel(find_from, 47);
    if 10 <= idx <= 22 {
        lemma_output_roundtrip(s.cfg.config.output[0], idx - 10, d);
    } else if 40 <= idx <= 52 {
        lemma_output_roundtrip(s.cfg.config.output[1], idx - 40, d);
    } else if idx == 70 || idx == 85 {
        lemma_b32_d32(d);
    } else if idx == 77 {
        lemma_b16_d16(d);
    } else {
        assert(seq![d[0]] =~= d.take(1));
    }
}


/// The number four bytes make, least significant first.
pub open spec fn word4(d: Seq<u8>) -> int {
    d[0] + 256 * d[1] + 65536 * d[2] + 16777216 * d[3]
}

/// The number seven bytes make, least significant first.
pub open spec fn word7(d: Seq<u8>) -> int {
    word4(d) + 4294967296 * (d[4] + 256 * d[5] + 65536 * d[6])
}

proof fn lemma_d32_word(d: Seq<u8>)
    requires
        d.len() >= 4,
    ensures
        d32(d) as int == word4(d),
{
    let (b0, b1, b2, b3) = (d[0], d[1], d[2], d[3]);
    assert(((b0 as u32) | ((b1 as u32) << 8u32) | ((b2 as u32) << 16u32) | ((b3 as u32) << 24u32)) as int
        == b0 + 256 * b1 + 65536 * b2 + 16777216 * b3) by (bit_vector);
}

proof fn lemma_d56_word(d: Seq<u8>)
    requires
        d.len() >= 7,
    ensures
        d56(d) as int == word7(d),
{
    let (b0, b1, b2, b3, b4, b5, b6) = (d[0], d[1], d[2], d[3], d[4], d[5], d[6]);
    assert(((b0 as u64) | ((b1 as u64) << 8u64) | ((b2 as u64) << 16u64) | ((b3 as u64) << 24u64)
        | ((b4 as u64) << 32u64) | ((b5 as u64) << 40u64) | ((b6 as u64) << 48u64)) as int
        == b0 + 256 * b1 + 65536 * b2 + 16777216 * b3 + 4294967296 * (b4 + 256 * b5 + 65536 * b6))
        by (bit_vector);
}

proof fn lemma_b32_word(v: u32)
    ensures
        b32(v).len() == 4,
        word4(b32(v)) == v as int,
{
    assert(((v & 0xff) as u8) + 256 * (((v >> 8u32) & 0xff) as u8) + 65536 * (((v >> 16u32) & 0xff) as u8)
        + 16777216 * (((v >> 24u32) & 0xff) as u8) == v) by (bit_vector);
}

proof fn lemma_b56_word(v: u64)
    ensures
        b56(v).len() == 7,
        word7(b56(v)) == v as int % 0x100_0000_0000_0000,
{
    assert(((v & 0xff) as u8) + 256 * (((v >> 8u64) & 0xff) as u8) + 65536 * (((v >> 16u64) & 0xff) as u8)
        + 16777216 * (((v >> 24u64) & 0xff) as u8) + 4294967296 * ((((v >> 32u64) & 0xff) as u8)
        + 256 * (((v >> 40u64) & 0xff) as u8) + 65536 * (((v >> 48u64) & 0xff) as u8))
        == v % 0x100_0000_0000_0000) by (bit_vector);
}

/// A SET of an output's field changes exactly the setting the field is
/// named for, in that output, to the value of the bytes given: fields
/// 10 to 22 are output A's, 40 to 52 output B's, in this order: number,
/// screen count, horizontal speed, vertical speed, top border, bottom
/// border, system, position, park position, screensaver mode, screensaver
/// only-if-inactive, idle time, longest time.
pub proof fn lemma_output_fields_set(s: Device, which: int, d: Seq<u8>)
    requires
        which == 0 || which == 1,
        d.len() >= 7,
    ensures
        ({
            let base = 10 + 30 * which;
            let o = s.cfg.config.output[which];
            let w = word4(d) as u32;
            &&& write_field_spec(s, base as u8, d) == s.with_output(which, Output { number: w, ..o })
            &&& write_field_spec(s, (base + 1) as u8, d) == s.with_output(which, Output { screen_count: w, ..o })
            &&& write_field_spec(s, (base + 2) as u8, d) == s.with_output(which, Output { speed_x: w as i32, ..o })
            &&& write_field_spec(s, (base + 3) as u8, d) == s.with_output(which, Output { speed_y: w as i32, ..o })
            &&& write_field_spec(s, (base + 4) as u8, d) == s.with_output(
                which, Output { border: BorderSize { top: w as i32, ..o.border }, ..o })
            &&& write_field_spec(s, (base + 5) as u8, d) == s.with_output(
                which, Output { border: BorderSize { bottom: w as i32, ..o.border }, ..o })
            &&& write_field_spec(s, (base + 6) as u8, d) == s.with_output(which, Output { os: d[0], ..o })
            &&& write_field_spec(s, (base + 7) as u8, d) == s.with_output(which, Output { pos: d[0], ..o })
            &&& write_field_spec(s, (base + 8) as u8, d) == s.with_output(which, Output { mouse_park_pos: d[0], ..o })
            &&& write_field_spec(s, (base + 9) as u8, d) == s.with_output(
                which, Output { screensaver: Screensaver { mode: d[0], ..o.screensaver }, ..o })
            &&& write_field_spec(s, (base + 10) as u8, d) == s.with_output(
                which, Output { screensaver: Screensaver { only_if_inactive: d[0], ..o.screensaver }, ..o })
            &&& write_field_spec(s, (base + 11) as u8, d) == s.with_output(
                which, Output { screensaver: Screensaver { idle_time_us: word7(d) as u64, ..o.screensaver }, ..o })
            &&& write_field_spec(s, (base + 12) as u8, d) == s.with_output(
                which, Output { screensaver: Screensaver { max_time_us: word7(d) as u64, ..o.screensaver }, ..o })
        }),
{
    lemma_d32_word(d);
    lemma_d56_word(d);
}

/// A GET of an output's field gives the setting the field is named for,
/// least significant byte first (the signed settings as their 32-bit
/// pattern, the times in their low seven bytes).
pub proof fn lemma_output_fields_get(s: Device, which: int)
    requires
        which == 0 || which == 1,
    ensures
        ({
            let base = 10 + 30 * which;
            let o = s.cfg.config.output[which];
            &&& field_bytes(s, base as u8).len() == 4 && word4(field_bytes(s, base as u8)) == o.number
            &&& field_bytes(s, (base + 1) as u8).len() == 4
                && word4(field_bytes(s, (base + 1) as u8)) == o.screen_count
            &&& field_bytes(s, (base + 2) as u8).len() == 4
                && word4(field_bytes(s, (base + 2) as u8)) == o.speed_x as u32
            &&& field_bytes(s, (base + 3) as u8).len() == 4
                && word4(field_bytes(s, (base + 3) as u8)) == o.speed_y as u32
            &&& field_bytes(s, (base + 4) as u8).len() == 4
                && word4(field_bytes(s, (base + 4) as u8)) == o.border.top as u32
            &&& field_bytes(s, (base + 5) as u8).len() == 4
                && word4(field_bytes(s, (base + 5) as u8)) == o.border.bottom as u32
            &&& field_bytes(s, (base + 6) as u8) == seq![o.os]
            &&& field_bytes(s, (base + 7) as u8) == seq![o.pos]
            &&& field_bytes(s, (base + 8) as u8) == seq![o.mouse_park_pos]
            &&& field_bytes(s, (base + 9) as u8) == seq![o.screensaver.mode]
            &&& field_bytes(s, (base + 10) as u8) == seq![o.screensaver.only_if_inactive]
            &&& field_bytes(s, (base + 11) as u8).len() == 7
                && word7(field_bytes(s, (base + 11) as u8)) == o.screensaver.idle_time_us as int % 0x100_0000_0000_0000
            &&& field_bytes(s, (base + 12) as u8).len() == 7
                && word7(field_bytes(s, (base + 12) as u8)) == o.screensaver.max_time_us as int % 0x100_0000_0000_0000
        }),
{
    let o = s.cfg.config.output[which];
    lemma_b32_word(o.number);
    lemma_b32_word(o.screen_count);
    lemma_b32_word(o.speed_x as u32);
    lemma_b32_word(o.speed_y as u32);
    lemma_b32_word(o.border.top as u32);
    lemma_b32_word(o.border.bottom as u32);
    lemma_b56_word(o.screensaver.idle_time_us);
    lemma_b56_word(o.screensaver.max_time_us);
}

proof fn lemma_d16_word(d: Seq<u8>)
    requires
        d.len() >= 2,
    ensures
        d16(d) as int == d[0] + 256 * d[1],
{
    let (b0, b1) = (d[0], d[1]);
    assert(((b0 as u16) | ((b1 as u16) << 8u16)) as int == b0 + 256 * b1) by (bit_vector);
}

proof fn lemma_b16_word(v: u16)
    ensures
        b16(v).len() == 2,
        b16(v)[0] + 256 * b16(v)[1] == v as int,
{
    assert(((v & 0xff) as u8) + 256 * (((v >> 8u16) & 0xff) as u8) == v) by (bit_vector);
}

/// The board with its settings replaced.
pub open spec fn with_config(s: Device, c: Config) -> Device {
    Device { cfg: DeviceConfig { config: c, ..s.cfg }, ..s }
}

/// A SET of a board-wide field changes exactly the setting it is named
/// for: 70 the version, 71 forced mouse boot mode, 72 forced keyboard boot
/// protocol, 73 keyboard LED as indicator, 74 hotkey toggle, 75
/// acceleration, 76 enforced ports, 77 jump threshold, 83 pass-through,
/// 84 gaming mode default, 85 SmartShift double-click time. A SET of any
/// other field outside the outputs' ranges changes nothing.
pub proof fn lemma_config_fields_set(s: Device, idx: u8, d: Seq<u8>)
    requires
        d.len() >= 4,
        !(10 <= idx <= 22 || 40 <= idx <= 52),
    ensures
        ({
            let c = s.cfg.config;
            let w = word4(d) as u32;
            &&& idx == 70 ==> write_field_spec(s, idx, d) == with_config(s, Config { version: w, ..c })
            &&& idx == 71 ==> write_field_spec(s, idx, d) == with_config(s, Config { force_mouse_boot_mode: d[0], ..c })
            &&& idx == 72 ==> write_field_spec(s, idx, d) == with_config(s, Config { force_kbd_boot_protocol: d[0], ..c })
            &&& idx == 73 ==> write_field_spec(s, idx, d) == with_config(s, Config { kbd_led_as_indicator: d[0], ..c })
            &&& idx == 74 ==> write_field_spec(s, idx, d) == with_config(s, Config { hotkey_toggle: d[0], ..c })
            &&& idx == 75 ==> write_field_spec(s, idx, d) == with_config(s, Config { enable_acceleration: d[0], ..c })
            &&& idx == 76 ==> write_field_spec(s, idx, d) == with_config(s, Config { enforce_ports: d[0], ..c })
            &&& idx == 77 ==> write_field_spec(s, idx, d) == with_config(s, 
                Config { jump_threshold: (d[0] + 256 * d[1]) as u16, ..c })
            &&& idx == 83 ==> write_field_spec(s, idx, d) == with_config(s, Config { passthrough_enabled: d[0], ..c })
            &&& idx == 84 ==> write_field_spec(s, idx, d) == with_config(s, Config { gaming_mode_default: d[0], ..c })
            &&& idx == 85 ==> write_field_spec(s, idx, d) == with_config(s, Config { smartshift_double_click_ms: w, ..c })
            &&& !(70 <= idx <= 77 || 83 <= idx <= 85) ==> write_field_spec(s, idx, d) == with_config(s, c)
        }),
{
    lemma_d32_word(d);
    lemma_d16_word(d);
    if !(70 <= idx <= 77 || 83 <= idx <= 85) {
        assert(config_with_field(s.cfg.config, idx, d) == s.cfg.config);
        assert(write_field_spec(s, idx, d) == with_config(s, s.cfg.config));
    }
}

/// A GET of a board-wide field gives the value it is named for, least
/// significant byte first: 0 the active output, 1 and 2 the pointer, 3 the
/// mouse buttons, 70 to 77 and 83 to 85 the settings a SET changes, 78 and
/// 79 the running firmware's version and checksum, 80 to 82 whether a
/// keyboard is connected, the switch is locked and the mouse is relative.
pub proof fn lemma_config_fields_get(s: Device)
    ensures
        ({
            let c = s.cfg.config;
            &&& field_bytes(s, 0) == seq![s.cfg.active_output]
            &&& field_bytes(s, 1).len() == 2 && field_bytes(s, 1)[0] + 256 * field_bytes(s, 1)[1] == s.hid.pointer_x as u16
            &&& field_bytes(s, 2).len() == 2 && field_bytes(s, 2)[0] + 256 * field_bytes(s, 2)[1] == s.hid.pointer_y as u16
            &&& field_bytes(s, 3).len() == 2
                && field_bytes(s, 3)[0] + 256 * field_bytes(s, 3)[1] == s.hid.mouse_buttons as u16
            &&& field_bytes(s, 70).len() == 4 && word4(field_bytes(s, 70)) == c.version
            &&& field_bytes(s, 71) == seq![c.force_mouse_boot_mode]
            &&& field_bytes(s, 72) == seq![c.force_kbd_boot_protocol]
            &&& field_bytes(s, 73) == seq![c.kbd_led_as_indicator]
            &&& field_bytes(s, 74) == seq![c.hotkey_toggle]
            &&& field_bytes(s, 75) == seq![c.enable_acceleration]
            &&& field_bytes(s, 76) == seq![c.enforce_ports]
            &&& field_bytes(s, 77).len() == 2 && field_bytes(s, 77)[0] + 256 * field_bytes(s, 77)[1] == c.jump_threshold
            &&& field_bytes(s, 78).len() == 2
                && field_bytes(s, 78)[0] + 256 * field_bytes(s, 78)[1] == s.fw.running_fw.version
            &&& field_bytes(s, 79).len() == 4 && word4(field_bytes(s, 79)) == s.fw.running_fw.checksum
            &&& field_bytes(s, 80) == seq![if s.cfg.keyboard_connected { 1u8 } else { 0u8 }]
            &&& field_bytes(s, 81) == seq![if s.cfg.switch_lock { 1u8 } else { 0u8 }]
            &&& field_bytes(s, 82) == seq![if s.cfg.relative_mouse { 1u8 } else { 0u8 }]
            &&& field_bytes(s, 83) == seq![c.passthrough_enabled]
            &&& field_bytes(s, 84) == seq![c.gaming_mode_default]
            &&& field_bytes(s, 85).len() == 4 && word4(field_bytes(s, 85)) == c.smartshift_double_click_ms
        }),
{
    lemma_b16_word(s.hid.pointer_x as u16);
    lemma_b16_word(s.hid.pointer_y as u16);
    lemma_b16_word(s.hid.mouse_buttons as u16);
    lemma_b16_word(s.cfg.config.jump_threshold);
    lemma_b16_word(s.fw.running_fw.version);
    lemma_b32_word(s.cfg.config.version);
    lemma_b32_word(s.fw.running_fw.checksum);
    lemma_b32_word(s.cfg.config.smartshift_double_click_ms);
}

} // verus!
