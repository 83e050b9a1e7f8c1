use lib::hid_report::{extract_bit_variable, get_report_value};

#[test]
fn test_get_report_value_byte_aligned() {
    let report = [0x00, 0x42, 0xFF];
    assert_eq!(get_report_value(&report, 8, 8), 0x42);
}

#[test]
fn test_get_report_value_cross_byte() {
    let report = [0xAB, 0xCD];
    assert_eq!(get_report_value(&report, 4, 8) as u8, 0xDA);
}

#[test]
fn test_get_report_value_single_bit() {
    let report = [0b00000100];
    assert_eq!(get_report_value(&report, 2, 1), -1);
    assert_eq!(get_report_value(&report, 0, 1), 0);
}

#[test]
fn test_get_report_value_signed() {
    let report = [0xFF];
    assert_eq!(get_report_value(&report, 0, 8), -1);
}

#[test]
fn test_get_report_value_out_of_bounds() {
    let report = [0x42];
    assert_eq!(get_report_value(&report, 16, 8), 0);
}

#[test]
fn test_extract_bit_variable_basic() {
    let report = [0b00000101];
    let mut dst = [0u8; 6];
    let count = extract_bit_variable(&report, 0, 7, 0, &mut dst);
    assert_eq!(count, 2);
    assert_eq!(dst[0], 0);
    assert_eq!(dst[1], 2);
}

#[test]
fn test_extract_bit_variable_with_offset() {
    let report = [0b00000011];
    let mut dst = [0u8; 6];
    let count = extract_bit_variable(&report, 0xE0, 0xE7, 0, &mut dst);
    assert_eq!(count, 2);
    assert_eq!(dst[0], 0xE0);
    assert_eq!(dst[1], 0xE1);
}

#[test]
fn test_extract_bit_variable_dst_limit() {
    let report = [0xFF];
    let mut dst = [0u8; 2];
    let count = extract_bit_variable(&report, 0, 7, 0, &mut dst);
    assert_eq!(count, 2);
}

#[test]
fn get_report_value_sixteen_bit_signed() {
    let report = [0x00, 0x80];
    assert_eq!(get_report_value(&report, 0, 16), -32768);
}
