use lib::structs::{BorderSize, FirmwareMetadata, HidKeyboardReport, UartPacketC};
use std::mem;

#[test]
fn test_uart_packet_size() {
    assert_eq!(mem::size_of::<UartPacketC>(), 10);
}

#[test]
fn test_hid_keyboard_report_size() {
    assert_eq!(mem::size_of::<HidKeyboardReport>(), 8);
}

#[test]
fn test_border_size() {
    assert_eq!(mem::size_of::<BorderSize>(), 8);
}

#[test]
fn test_firmware_metadata_size() {
    let size = mem::size_of::<FirmwareMetadata>();
    assert!(size >= 10);
}

#[test]
fn smoke_test() {
    assert!(true);
}
