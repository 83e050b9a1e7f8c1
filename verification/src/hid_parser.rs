use vstd::prelude::*;

verus! {

/// HID descriptor item header (1 byte, unpacked into size/type/tag).
#[derive(Debug, Clone, Copy, Default)]
pub struct Header {
    /// Size field (2 bits).
    pub size: u8,
    /// Item type (2 bits).
    pub htype: u8,
    /// Item tag (4 bits).
    pub tag: u8,
}

impl Header {
    /// Parse a header byte into its components.
    pub fn from_byte(byte: u8) -> (h: Self)
        ensures
            h.size == byte & 0x03,
            h.htype == (byte >> 2u8) & 0x03,
            h.tag == (byte >> 4u8) & 0x0F,
            h.size < 4,
            h.htype < 4,
            h.tag < 16,
            byte == h.size + 4 * h.htype + 16 * h.tag,
    {
        let h = Header { size: byte & 0x03, htype: (byte >> 2u8) & 0x03, tag: (byte >> 4u8) & 0x0F };
        assert(byte & 0x03 < 4 && (byte >> 2u8) & 0x03 < 4 && (byte >> 4u8) & 0x0F < 16
            && byte == (byte & 0x03) + 4 * ((byte >> 2u8) & 0x03) + 16 * ((byte >> 4u8) & 0x0F))
            by (bit_vector);
        h
    }
}

/// Byte count encoded by a descriptor item's size field (0-3).
pub open spec fn size_bytes_spec(size_field: u8) -> u8 {
    let s = size_field & 0x03;
    if s == 3 { 4 } else { s }
}

/// Size lookup: descriptor size field (0-3) to actual byte count.
pub fn size_bytes(size_field: u8) -> (r: u8)
    ensures
        r == size_bytes_spec(size_field),
{
    let s = size_field & 0x03;
    if s == 3 { 4 } else { s }
}

/// Little-endian unsigned value of a byte string.
pub open spec fn le_value(s: Seq<u8>) -> nat
    decreases s.len(),
{
    if s.len() == 0 {
        0
    } else {
        s[0] as nat + 256 * le_value(s.drop_first())
    }
}

/// The value a descriptor item carries, for a size field value `size`.
pub open spec fn descriptor_value(data: Seq<u8>, size: u8) -> u32 {
    if size == 1 && data.len() >= 1 {
        le_value(data.take(1)) as u32
    } else if size == 2 && data.len() >= 2 {
        le_value(data.take(2)) as u32
    } else if size == 3 && data.len() >= 4 {
        le_value(data.take(4)) as u32
    } else {
        0
    }
}

/// Extract a value from descriptor data based on size field.
pub fn get_descriptor_value(data: &[u8], size: u8) -> (r: u32)
    ensures
        r == descriptor_value(data@, size),
        r as nat == (if (size == 1 && data@.len() >= 1) { le_value(data@.take(1)) }
            else if (size == 2 && data@.len() >= 2) { le_value(data@.take(2)) }
            else if (size == 3 && data@.len() >= 4) { le_value(data@.take(4)) }
            else { 0 }),
{
    if size == 1 {
        if data.len() == 0 {
            0
        } else {
            proof { reveal_le(data@.take(1)); }
            data[0] as u32
        }
    } else if size == 2 {
        if data.len() < 2 {
            0
        } else {
            let r = (data[0] as u32) + 256 * (data[1] as u32);
            proof { reveal_le(data@.take(2)); }
            r
        }
    } else if size == 3 {
        if data.len() < 4 {
            0
        } else {
            let r = (data[0] as u32) + 256 * ((data[1] as u32) + 256 * ((data[2] as u32) + 256 * (data[3] as u32)));
            proof { reveal_le(data@.take(4)); }
            r
        }
    } else {
        0
    }
}

/// Unfolds `le_value` on strings of up to four bytes.
proof fn reveal_le(s: Seq<u8>)
    requires
        1 <= s.len() <= 4,
    ensures
        s.len() == 1 ==> le_value(s) == s[0] as nat,
        s.len() == 2 ==> le_value(s) == s[0] as nat + 256 * (s[1] as nat),
        s.len() == 4 ==> le_value(s) == s[0] as nat + 256 * (s[1] as nat + 256 * (s[2] as nat
            + 256 * (s[3] as nat))),
{
    reveal_with_fuel(le_value, 5);
    assert(s.drop_first().drop_first().drop_first().drop_first().len() == 0 || s.len() < 4);
}

/// HID Report Item types.
pub const RI_TYPE_MAIN: u8 = 0;
pub const RI_TYPE_GLOBAL: u8 = 1;
pub const RI_TYPE_LOCAL: u8 = 2;

/// Main item tags.
pub const RI_MAIN_INPUT: u8 = 8;
pub const RI_MAIN_OUTPUT: u8 = 9;
pub const RI_MAIN_COLLECTION: u8 = 10;
pub const RI_MAIN_COLLECTION_END: u8 = 12;

/// Global item tags.
pub const RI_GLOBAL_USAGE_PAGE: u8 = 0;
pub const RI_GLOBAL_LOGICAL_MIN: u8 = 1;
pub const RI_GLOBAL_LOGICAL_MAX: u8 = 2;
pub const RI_GLOBAL_REPORT_SIZE: u8 = 7;
pub const RI_GLOBAL_REPORT_ID: u8 = 8;
pub const RI_GLOBAL_REPORT_COUNT: u8 = 9;

/// Local item tags.
pub const RI_LOCAL_USAGE: u8 = 0;
pub const RI_LOCAL_USAGE_MIN: u8 = 1;
pub const RI_LOCAL_USAGE_MAX: u8 = 2;

/// HID Usage Pages.
pub const HID_USAGE_PAGE_DESKTOP: u16 = 0x01;
pub const HID_USAGE_PAGE_KEYBOARD: u16 = 0x07;
pub const HID_USAGE_PAGE_BUTTON: u16 = 0x09;
pub const HID_USAGE_PAGE_CONSUMER: u16 = 0x0C;

/// HID Desktop Usages.
pub const HID_USAGE_DESKTOP_X: u16 = 0x30;
pub const HID_USAGE_DESKTOP_Y: u16 = 0x31;
pub const HID_USAGE_DESKTOP_WHEEL: u16 = 0x38;
pub const HID_USAGE_DESKTOP_MOUSE: u16 = 0x02;
pub const HID_USAGE_DESKTOP_KEYBOARD: u16 = 0x06;

/// Parsed report value descriptor: where a value lives in a HID report.
#[derive(Debug, Clone, Copy, Default)]
pub struct ReportVal {
    /// In bits.
    pub offset: u16,
    /// In bytes.
    pub offset_idx: u16,
    /// In bits.
    pub size: u16,
    pub usage_min: i32,
    pub usage_max: i32,
    /// DATA or CONSTANT.
    pub item_type: u8,
    /// VARIABLE or ARRAY.
    pub data_type: u8,
    pub report_id: u8,
    pub global_usage: u16,
    pub usage_page: u16,
    pub usage: u16,
}

/// Data type constants.
pub const DATA: u8 = 0;
pub const CONSTANT: u8 = 1;
pub const ARRAY: u8 = 2;
pub const VARIABLE: u8 = 3;

} // verus!
