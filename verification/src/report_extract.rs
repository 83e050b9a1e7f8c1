//! Reading a device's raw input reports by the layout its report
//! descriptor gave: keyboard reports into the 8-byte boot layout, mouse
//! reports into movement, wheel and buttons. Bytes past the end of a report
//! read as zero.
use vstd::prelude::*;
use crate::hid_extract::find_keyboard_idx;
use crate::hid_parser::ReportVal;
use crate::hid_report::{extract_bit_variable, found_usages, get_report_value, report_value, report_value_defined, usage_span};
use crate::mouse::MouseValues;
use crate::structs::{HidInterface, KeyboardDescriptor, MAX_KEYS};

verus! {

/// Length of a boot-layout keyboard report.
pub const KBD_REPORT_LENGTH: usize = 8;
/// Keys a boot-layout report carries.
pub const KEYS_IN_USB_REPORT: usize = 6;
/// Interface protocol of a boot-protocol device.
pub const HID_PROTOCOL_BOOT: u8 = 0;
/// Width of the modifier field an NKRO layout needs.
pub const MODIFIER_BIT_LENGTH: u16 = 8;

/// The byte at `i`, zero past the end.
pub open spec fn byte_at(s: Seq<u8>, i: int) -> u8 {
    if 0 <= i < s.len() { s[i] } else { 0 }
}

fn byte_at_exec(s: &[u8], i: usize) -> (b: u8)
    ensures
        b == byte_at(s@, i as int),
{
    if i < s.len() { s[i] } else { 0 }
}

/// `n` zero bytes.
pub open spec fn zeros(n: nat) -> Seq<u8> {
    Seq::new(n, |i: int| 0u8)
}

/// A boot-layout report as it is: its first 8 bytes, or the 8 after the
/// report id when it is 9 bytes long.
pub open spec fn boot_kbd(r: Seq<u8>) -> Seq<u8> {
    let base: int = if r.len() == 9 { 1 } else { 0 };
    Seq::new(8, |i: int| byte_at(r, base + i))
}

/// The keys of the array slots below `n`, in slot order, at most six.
pub open spec fn array_keys(src: Seq<u8>, key_array: Seq<bool>, n: int) -> Seq<u8>
    decreases n,
{
    if n <= 0 {
        Seq::empty()
    } else {
        let k = array_keys(src, key_array, n - 1);
        if k.len() < 6 && key_array[n - 1] { k.push(byte_at(src, n - 1)) } else { k }
    }
}

proof fn lemma_array_keys_len(src: Seq<u8>, key_array: Seq<bool>, n: int)
    ensures
        array_keys(src, key_array, n).len() <= 6,
    decreases n,
{
    if n > 0 {
        lemma_array_keys_len(src, key_array, n - 1);
    }
}

/// A report laid out by a keyboard descriptor: the modifier from its byte,
/// then the keys of the array slots.
pub open spec fn other_kbd(src: Seq<u8>, kbd: KeyboardDescriptor) -> Seq<u8> {
    let keys = array_keys(src, kbd.key_array@, MAX_KEYS as int);
    seq![byte_at(src, kbd.modifier.offset_idx as int), 0u8] + keys + zeros((6 - keys.len()) as nat)
}

/// The report bytes after the report id, when the interface uses ids.
pub open spec fn after_id(r: Seq<u8>, uses_report_id: bool) -> Seq<u8> {
    if uses_report_id { r.skip(1) } else { r }
}

/// The bitmap bytes an NKRO layout is read from: from the bitmap's byte
/// on, at most as many as the report is long and at most 32.
pub open spec fn nkro_bytes(src: Seq<u8>, off: int, len: int) -> Seq<u8> {
    let want = if len < 32 { len } else { 32 };
    let end = if off + want < src.len() { off + want } else { src.len() as int };
    if off < end { src.subrange(off, end) } else { Seq::empty() }
}

/// The usages an NKRO bitmap reports pressed.
pub open spec fn nkro_keys(r: Seq<u8>, uses_report_id: bool, kbd: KeyboardDescriptor) -> Seq<u8> {
    found_usages(
        nkro_bytes(after_id(r, uses_report_id), kbd.nkro.offset_idx as int, r.len() as int),
        kbd.nkro.usage_min as int,
        0,
        usage_span(kbd.nkro.usage_min, kbd.nkro.usage_max),
    )
}

/// Whether an NKRO layout can be read: the bitmap has one bit per usage
/// and the modifier is one byte.
pub open spec fn nkro_readable(kbd: KeyboardDescriptor) -> bool {
    kbd.nkro.usage_max - kbd.nkro.usage_min + 1 == kbd.nkro.size as int && kbd.modifier.size == MODIFIER_BIT_LENGTH
}

/// A keyboard report read through an NKRO layout: the number of keys and
/// the boot-layout bytes, or -1 for a layout that cannot be read.
pub open spec fn nkro_kbd(r: Seq<u8>, uses_report_id: bool, kbd: KeyboardDescriptor) -> (i32, Seq<u8>) {
    if !nkro_readable(kbd) {
        (-1i32, zeros(8))
    } else {
        let all = nkro_keys(r, uses_report_id, kbd);
        let n: int = if all.len() < 6 { all.len() as int } else { 6 };
        (
            n as i32,
            seq![byte_at(after_id(r, uses_report_id), kbd.modifier.offset_idx as int), 0u8] + all.take(n) + zeros(
                (6 - n) as nat,
            ),
        )
    }
}

/// A raw keyboard report in the boot layout: the number of keys or bytes
/// it gave (0 for a report shorter than 8 bytes, -1 for an unreadable
/// NKRO layout) and the 8 bytes.
pub open spec fn kbd_extract_spec(r: Seq<u8>, iface: HidInterface) -> (i32, Seq<u8>) {
    if r.len() < 8 {
        (0i32, zeros(8))
    } else if iface.protocol == HID_PROTOCOL_BOOT {
        (8i32, boot_kbd(r))
    } else {
        let kbd = iface.keyboards[crate::hid_extract::keyboard_index_of(iface, r[0])];
        if kbd.is_nkro {
            nkro_kbd(r, iface.uses_report_id, kbd)
        } else if !iface.uses_report_id && (r.len() == 8 || r.len() == 9) {
            (8i32, boot_kbd(r))
        } else {
            (8i32, other_kbd(after_id(r, iface.uses_report_id), kbd))
        }
    }
}

/// An NKRO keyboard's layout counts its offsets from the first byte after
/// the report id: a report read with a leading report id, on an interface
/// that uses ids, gives what the same report without the id gives on one
/// that does not.
pub proof fn lemma_nkro_offsets_follow_report_id(iface: HidInterface, id: u8, r: Seq<u8>)
    requires
        iface.num_keyboards == 1,
        iface.protocol != HID_PROTOCOL_BOOT,
        iface.keyboards[0].is_nkro,
        r.len() >= 8,
    ensures
        kbd_extract_spec(seq![id] + r, HidInterface { uses_report_id: true, ..iface })
            == kbd_extract_spec(r, HidInterface { uses_report_id: false, ..iface }),
{
    let with = seq![id] + r;
    assert(after_id(with, true) =~= r);
    assert(after_id(r, false) == r);
    let kbd = iface.keyboards[0];
    let off = kbd.nkro.offset_idx as int;
    assert(nkro_bytes(r, off, with.len() as int) == nkro_bytes(r, off, r.len() as int));
    assert(nkro_keys(with, true, kbd) == nkro_keys(r, false, kbd));
    assert(nkro_kbd(with, true, kbd) == nkro_kbd(r, false, kbd));
}

fn extract_kbd_boot(raw: &[u8]) -> (out: [u8; 8])
    ensures
        out@ == boot_kbd(raw@),
{
    let base: usize = if raw.len() == 9 { 1 } else { 0 };
    let mut out = [0u8; 8];
    let mut i: usize = 0;
    while i < 8
        invariant
            i <= 8,
            base == (if raw@.len() == 9 { 1usize } else { 0usize }),
            forall|k: int| 0 <= k < i ==> out@[k] == byte_at(raw@, base + k),
        decreases 8 - i,
    {
        out[i] = byte_at_exec(raw, base + i);
        i = i + 1;
    }
    assert(out@ =~= boot_kbd(raw@));
    out
}

fn extract_kbd_other(src: &[u8], kbd: &KeyboardDescriptor) -> (out: [u8; 8])
    ensures
        out@ == other_kbd(src@, *kbd),
{
    let mut out = [0u8; 8];
    out[0] = byte_at_exec(src, kbd.modifier.offset_idx as usize);
    let mut j: usize = 0;
    let mut i: usize = 0;
    while i < MAX_KEYS
        invariant
            i <= MAX_KEYS,
            j == array_keys(src@, kbd.key_array@, i as int).len(),
            j <= 6,
            out@[0] == byte_at(src@, kbd.modifier.offset_idx as int),
            out@[1] == 0,
            forall|k: int| 0 <= k < j ==> #[trigger] out@[2 + k] == array_keys(src@, kbd.key_array@, i as int)[k],
            forall|k: int| j <= k < 6 ==> #[trigger] out@[2 + k] == 0,
        decreases MAX_KEYS - i,
    {
        if j < KEYS_IN_USB_REPORT && kbd.key_array[i] {
            out[2 + j] = byte_at_exec(src, i);
            j = j + 1;
        }
        i = i + 1;
    }
    proof {
        lemma_array_keys_len(src@, kbd.key_array@, MAX_KEYS as int);
        let keys = array_keys(src@, kbd.key_array@, MAX_KEYS as int);
        let target = other_kbd(src@, *kbd);
        assert forall|t: int| 0 <= t < 8 implies out@[t] == target[t] by {
            if t >= 2 {
                let k = t - 2;
                assert(out@[2 + k] == out@[t]);
                if k < keys.len() {
                    assert(target[t] == keys[k]);
                } else {
                    assert(target[t] == 0);
                }
            }
        }
        assert(out@ =~= target);
    }
    out
}

fn extract_kbd_nkro(raw: &[u8], uses_report_id: bool, kbd: &KeyboardDescriptor) -> (r: (i32, [u8; 8]))
    requires
        raw@.len() >= 8,
    ensures
        (r.0, r.1@) == nkro_kbd(raw@, uses_report_id, *kbd),
{
    let usage_min = kbd.nkro.usage_min;
    let usage_max = kbd.nkro.usage_max;
    if usage_max as i64 - usage_min as i64 + 1 != kbd.nkro.size as i64 || kbd.modifier.size != MODIFIER_BIT_LENGTH {
        let z = [0u8; 8];
        assert(z@ =~= zeros(8));
        return (-1, z);
    }
    let src: &[u8] = if uses_report_id { vstd::slice::slice_subrange(raw, 1, raw.len()) } else { raw };
    assert(src@ =~= after_id(raw@, uses_report_id));
    let off = kbd.nkro.offset_idx as usize;
    let want: usize = if raw.len() < 32 { raw.len() } else { 32 };
    let end: usize = if off + want < src.len() { off + want } else { src.len() };
    let bitmap: &[u8] = if off < end { vstd::slice::slice_subrange(src, off, end) } else { vstd::slice::slice_subrange(src, 0, 0) };
    assert(bitmap@ =~= nkro_bytes(src@, off as int, raw@.len() as int));
    let mut keys = [0u8; 6];
    let count = extract_bit_variable(bitmap, usage_min, usage_max, 0, &mut keys);
    let mut out = [0u8; 8];
    out[0] = byte_at_exec(src, kbd.modifier.offset_idx as usize);
    let mut k: usize = 0;
    while k < 6
        invariant
            k <= 6,
            out@[0] == byte_at(src@, kbd.modifier.offset_idx as int),
            out@[1] == 0,
            forall|m: int| 0 <= m < k ==> #[trigger] out@[2 + m] == keys@[m],
            forall|m: int| k <= m < 6 ==> #[trigger] out@[2 + m] == 0,
        decreases 6 - k,
    {
        out[2 + k] = keys[k];
        k = k + 1;
    }
    let ghost all = nkro_keys(raw@, uses_report_id, *kbd);
    assert(keys@.take(count as int) =~= all.take(count as int));
    proof {
        let target = seq![byte_at(src@, kbd.modifier.offset_idx as int), 0u8] + all.take(count as int) + zeros((6 - count) as nat);
        assert forall|t: int| 0 <= t < 8 implies out@[t] == target[t] by {
            if t >= 2 {
                let m = t - 2;
                assert(out@[2 + m] == out@[t]);
                if m < count {
                    assert(target[t] == all.take(count as int)[m]);
                    assert(keys@.take(count as int)[m] == keys@[m]);
                } else {
                    assert(target[t] == 0);
                    assert(keys@.skip(count as int)[m - count] == keys@[m]);
                }
            }
        }
        assert(out@ =~= target);
    }
    (count as i32, out)
}

/// Read a raw keyboard report into the 8-byte boot layout: a boot-protocol
/// device (or an interface without report ids sending 8 or 9 bytes) is
/// copied as it is, an NKRO bitmap is turned into up to six key codes, and
/// other layouts take the modifier and array keys where the descriptor put
/// them. Gives the number of keys or bytes with the report.
pub fn extract_kbd_data(raw: &[u8], iface: &HidInterface) -> (r: (i32, [u8; 8]))
    ensures
        (r.0, r.1@) == kbd_extract_spec(raw@, *iface),
{
    if raw.len() < KBD_REPORT_LENGTH {
        let z = [0u8; 8];
        assert(z@ =~= zeros(8));
        return (0, z);
    }
    if iface.protocol == HID_PROTOCOL_BOOT {
        return (8, extract_kbd_boot(raw));
    }
    let ki = find_keyboard_idx(iface, raw[0]);
    let kbd = &iface.keyboards[ki];
    if kbd.is_nkro {
        return extract_kbd_nkro(raw, iface.uses_report_id, kbd);
    }
    if !iface.uses_report_id && (raw.len() == KBD_REPORT_LENGTH || raw.len() == KBD_REPORT_LENGTH + 1) {
        return (8, extract_kbd_boot(raw));
    }
    let src: &[u8] = if iface.uses_report_id { vstd::slice::slice_subrange(raw, 1, raw.len()) } else { raw };
    assert(src@ =~= after_id(raw@, iface.uses_report_id));
    (8, extract_kbd_other(src, kbd))
}

/// The value of a mouse field: read after the report id, and only from a
/// report with the field's id, when the interface uses ids.
pub open spec fn mouse_field(r: Seq<u8>, uses_report_id: bool, rv: ReportVal) -> Option<i32> {
    if uses_report_id {
        if r[0] != rv.report_id { None } else { Some(report_value(r.skip(1), rv.offset, rv.size)) }
    } else {
        Some(report_value(r, rv.offset, rv.size))
    }
}

/// Whether a mouse field can be read from a report of this length.
pub open spec fn mouse_field_defined(len: int, uses_report_id: bool, rv: ReportVal) -> bool {
    report_value_defined(if uses_report_id { len - 1 } else { len }, rv.offset, rv.size)
}

/// Whether every mouse field can be read from a report of this length.
pub open spec fn mouse_fields_defined(iface: HidInterface, len: int) -> bool {
    let u = iface.uses_report_id;
    &&& mouse_field_defined(len, u, iface.mouse.move_x)
    &&& mouse_field_defined(len, u, iface.mouse.move_y)
    &&& mouse_field_defined(len, u, iface.mouse.wheel)
    &&& mouse_field_defined(len, u, iface.mouse.pan)
    &&& mouse_field_defined(len, u, iface.mouse.buttons)
}

/// A value of a mouse field, or zero (for the buttons: the buttons held so
/// far) when the report is not the field's.
pub open spec fn field_or(v: Option<i32>, d: i32) -> i32 {
    match v {
        Some(x) => x,
        None => d,
    }
}

/// The movement, wheel and buttons of a raw mouse report: a boot-protocol
/// report holds buttons, x, y and wheel as bytes; other reports are read by
/// the descriptor's layout.
pub open spec fn mouse_values_spec(r: Seq<u8>, iface: HidInterface, fallback_buttons: i16) -> MouseValues {
    if iface.protocol == HID_PROTOCOL_BOOT {
        MouseValues {
            move_x: byte_at(r, 1) as i8 as i32,
            move_y: byte_at(r, 2) as i8 as i32,
            wheel: byte_at(r, 3) as i8 as i32,
            pan: 0,
            buttons: byte_at(r, 0) as i32,
        }
    } else {
        let u = iface.uses_report_id;
        MouseValues {
            move_x: field_or(mouse_field(r, u, iface.mouse.move_x), 0),
            move_y: field_or(mouse_field(r, u, iface.mouse.move_y), 0),
            wheel: field_or(mouse_field(r, u, iface.mouse.wheel), 0),
            pan: field_or(mouse_field(r, u, iface.mouse.pan), 0),
            buttons: field_or(mouse_field(r, u, iface.mouse.buttons), fallback_buttons as i32),
        }
    }
}

fn field_readable(len: usize, uses_report_id: bool, rv: &ReportVal) -> (r: bool)
    ensures
        r == mouse_field_defined(len as int, uses_report_id, *rv),
{
    let l: i128 = if uses_report_id { len as i128 - 1 } else { len as i128 };
    let bo: i128 = (rv.offset / 8) as i128;
    if bo >= l || rv.size == 0 {
        return true;
    }
    let o: i128 = (rv.offset % 8) as i128;
    let needed: i128 = if rv.size as i128 <= 8 - o { 1 } else { 1 + (rv.size as i128 - (8 - o) + 7) / 8 };
    let n: i128 = if needed < l - bo { needed } else { l - bo };
    8 * (n - 1) < 32 + o
}

/// Whether a raw mouse report of this length can be read by the
/// interface's layout.
pub fn mouse_report_readable(iface: &HidInterface, len: usize) -> (r: bool)
    ensures
        r == (iface.protocol == HID_PROTOCOL_BOOT || mouse_fields_defined(*iface, len as int)),
{
    if iface.protocol == HID_PROTOCOL_BOOT {
        return true;
    }
    let u = iface.uses_report_id;
    field_readable(len, u, &iface.mouse.move_x) && field_readable(len, u, &iface.mouse.move_y)
        && field_readable(len, u, &iface.mouse.wheel) && field_readable(len, u, &iface.mouse.pan)
        && field_readable(len, u, &iface.mouse.buttons)
}

fn extract_mouse_field(report: &[u8], uses_report_id: bool, rv: &ReportVal) -> (v: Option<i32>)
    requires
        report@.len() > 0,
        mouse_field_defined(report@.len() as int, uses_report_id, *rv),
    ensures
        v == mouse_field(report@, uses_report_id, *rv),
{
    if uses_report_id {
        if report[0] != rv.report_id {
            return None;
        }
        let rest = vstd::slice::slice_subrange(report, 1, report.len());
        assert(rest@ =~= report@.skip(1));
        Some(get_report_value(rest, rv.offset, rv.size))
    } else {
        Some(get_report_value(report, rv.offset, rv.size))
    }
}

/// Read the movement, wheel and buttons of a raw mouse report; the buttons
/// held so far stand when the report carries none.
pub fn extract_mouse_values(report: &[u8], iface: &HidInterface, fallback_buttons: i16) -> (v: MouseValues)
    requires
        report@.len() > 0,
        iface.protocol != HID_PROTOCOL_BOOT ==> mouse_fields_defined(*iface, report@.len() as int),
    ensures
        v == mouse_values_spec(report@, *iface, fallback_buttons),
{
    if iface.protocol == HID_PROTOCOL_BOOT {
        return MouseValues {
            move_x: byte_at_exec(report, 1) as i8 as i32,
            move_y: byte_at_exec(report, 2) as i8 as i32,
            wheel: byte_at_exec(report, 3) as i8 as i32,
            pan: 0,
            buttons: byte_at_exec(report, 0) as i32,
        };
    }
    let u = iface.uses_report_id;
    let x = extract_mouse_field(report, u, &iface.mouse.move_x);
    let y = extract_mouse_field(report, u, &iface.mouse.move_y);
    let w = extract_mouse_field(report, u, &iface.mouse.wheel);
    let p = extract_mouse_field(report, u, &iface.mouse.pan);
    let b = extract_mouse_field(report, u, &iface.mouse.buttons);
    MouseValues {
        move_x: match x { Some(v) => v, None => 0 },
        move_y: match y { Some(v) => v, None => 0 },
        wheel: match w { Some(v) => v, None => 0 },
        pan: match p { Some(v) => v, None => 0 },
        buttons: match b { Some(v) => v, None => fallback_buttons as i32 },
    }
}

} // verus!
