use lib::cdc_console::{parse_dbg_command, parse_hex, string_desc_for, string_descriptor, DbgCommand, LineAssembler};

#[test]
fn hex_skips_leading_blanks() {
    assert_eq!(parse_hex(b"  1a3"), Some(0x1a3));
    assert_eq!(parse_hex(b"\tFF zz"), Some(0xFF));
    assert_eq!(parse_hex(b"  "), None);
    assert_eq!(parse_hex(b"zz"), None);
    assert_eq!(parse_hex(b"12 34"), Some(0x12));
}

#[test]
fn hex_keeps_low_32_bits() {
    assert_eq!(parse_hex(b"123456789"), Some(0x2345_6789));
}

#[test]
fn string_table() {
    assert_eq!(string_desc_for(1), Some("Hrvoje Cavrak"));
    assert_eq!(string_desc_for(2), Some("DeskHop Switch"));
    assert_eq!(string_desc_for(3), None);
    assert_eq!(string_desc_for(9), None);
}

#[test]
fn language_descriptor() {
    assert_eq!(string_descriptor(0, &[]), Some(vec![0x0304, 0x0409]));
}

#[test]
fn product_descriptor_is_utf16() {
    let d = string_descriptor(2, &[]).unwrap();
    assert_eq!(d[0], 0x0300 | (2 * 14 + 2));
    assert_eq!(d.len(), 15);
    assert_eq!(d[1], 'D' as u16);
}

#[test]
fn serial_descriptor_stops_at_nul() {
    let d = string_descriptor(3, b"AB12\0\0\0").unwrap();
    assert_eq!(d, vec![0x030A, 'A' as u16, 'B' as u16, '1' as u16, '2' as u16]);
}

#[test]
fn unknown_descriptor_is_none() {
    assert_eq!(string_descriptor(8, &[]), None);
}

#[test]
fn lines_split_on_cr_and_lf() {
    let mut a = LineAssembler::new();
    let lines = a.feed(b"ptr\r\nlog");
    assert_eq!(lines, vec![b"ptr".to_vec()]);
    let lines = a.feed(b"dump\n");
    assert_eq!(lines, vec![b"logdump".to_vec()]);
}

#[test]
fn overlong_line_is_dropped() {
    let mut a = LineAssembler::new();
    let lines = a.feed(&[b'x'; 25]);
    assert!(lines.is_empty());
    let lines = a.feed(b"kb1\n");
    assert_eq!(lines, vec![b"kb1".to_vec()]);
}

#[test]
fn commands_parse() {
    assert_eq!(parse_dbg_command(b""), DbgCommand::Empty);
    assert_eq!(parse_dbg_command(b"logdump"), DbgCommand::LogDump);
    assert_eq!(parse_dbg_command(b"ptr"), DbgCommand::TogglePointerLog);
    assert_eq!(parse_dbg_command(b"pushfw"), DbgCommand::PushFirmware);
    assert_eq!(parse_dbg_command(b"cc1a3"), DbgCommand::ConsumerTap(0x1a3));
    assert_eq!(parse_dbg_command(b"kb042b"), DbgCommand::KeyboardTap { modifier: 0x04, keycode: 0x2b });
    assert_eq!(parse_dbg_command(b"cczz"), DbgCommand::BadHex);
    assert_eq!(parse_dbg_command(b"hello"), DbgCommand::Unknown);
}
