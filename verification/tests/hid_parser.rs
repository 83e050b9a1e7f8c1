use lib::hid_parser::{get_descriptor_value, size_bytes, Header, ReportVal};

#[test]
fn test_header_from_byte() {
    let h = Header::from_byte(0x05);
    assert_eq!(h.size, 1);
    assert_eq!(h.htype, 1);
    assert_eq!(h.tag, 0);
    let h2 = Header::from_byte(0xA1);
    assert_eq!(h2.size, 1);
    assert_eq!(h2.htype, 0);
    assert_eq!(h2.tag, 10);
}

#[test]
fn test_size_lookup() {
    assert_eq!(size_bytes(0), 0);
    assert_eq!(size_bytes(1), 1);
    assert_eq!(size_bytes(2), 2);
    assert_eq!(size_bytes(3), 4);
}

#[test]
fn test_get_descriptor_value_8bit() {
    assert_eq!(get_descriptor_value(&[0x42], 1), 0x42);
}

#[test]
fn test_get_descriptor_value_16bit() {
    assert_eq!(get_descriptor_value(&[0x34, 0x12], 2), 0x1234);
}

#[test]
fn test_get_descriptor_value_32bit() {
    assert_eq!(get_descriptor_value(&[0x78, 0x56, 0x34, 0x12], 3), 0x12345678);
}

#[test]
fn test_get_descriptor_value_zero() {
    assert_eq!(get_descriptor_value(&[], 0), 0);
}

#[test]
fn test_get_descriptor_value_short_buffer() {
    assert_eq!(get_descriptor_value(&[0x42], 2), 0);
}

#[test]
fn test_report_val_default() {
    let val = ReportVal::default();
    assert_eq!(val.offset, 0);
    assert_eq!(val.size, 0);
    assert_eq!(val.report_id, 0);
}

#[test]
fn header_of_long_item_prefix() {
    let h = Header::from_byte(0xFE);
    assert_eq!(h.size, 2);
    assert_eq!(h.htype, 3);
    assert_eq!(h.tag, 15);
}
