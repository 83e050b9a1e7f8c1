use lib::constants::PacketType;
use lib::hal::Hal;
use lib::service::config_api::{fields, find_field, handle_api_msg, handle_api_read_all, read_field, write_field};
use lib::structs::Device;

#[test]
fn test_read_write_roundtrip() {
    let mut dev = Device::zeroed_for_test();
    let value: u32 = 0xDEAD_BEEF;
    let data = value.to_le_bytes();
    write_field(&mut dev, 70, &data);
    assert_eq!(dev.cfg.config.version, 0xDEAD_BEEF);
    let mut out = [0u8; 8];
    read_field(&dev, 70, &mut out);
    assert_eq!(&out[..4], &data);
}

#[test]
fn test_handle_api_msg_set_val() {
    let mut dev = Device::zeroed_for_test();
    let mut hal = Hal::new();
    let data = 42u32.to_le_bytes();
    let mut buf = [0u8; 8];
    buf[..4].copy_from_slice(&data);
    handle_api_msg(&mut dev, &mut hal, PacketType::SetVal.to_u8(), 70, &buf);
    assert_eq!(dev.cfg.config.version, 42);
}

#[test]
fn test_handle_api_msg_get_val() {
    let mut dev = Device::zeroed_for_test();
    dev.cfg.config.version = 99;
    let mut hal = Hal::new();
    handle_api_msg(&mut dev, &mut hal, PacketType::GetVal.to_u8(), 70, &[0u8; 8]);
    let packets = &hal.config_packets;
    assert_eq!(packets.len(), 1);
    assert_eq!(packets[0][0], PacketType::GetVal.to_u8());
    assert_eq!(packets[0][1], 70);
    let ver = u32::from_le_bytes([packets[0][2], packets[0][3], packets[0][4], packets[0][5]]);
    assert_eq!(ver, 99);
}

#[test]
fn test_handle_api_msg_readonly_field() {
    let mut dev = Device::zeroed_for_test();
    dev.cfg.active_output = 0;
    let mut hal = Hal::new();
    handle_api_msg(&mut dev, &mut hal, PacketType::SetVal.to_u8(), 0, &[1, 0, 0, 0, 0, 0, 0, 0]);
    assert_eq!(dev.cfg.active_output, 0);
}

#[test]
fn test_handle_api_msg_updates_timer() {
    let mut dev = Device::zeroed_for_test();
    let mut hal = Hal::new();
    hal.set_time(1_000_000);
    handle_api_msg(&mut dev, &mut hal, PacketType::GetVal.to_u8(), 70, &[0u8; 8]);
    assert_eq!(dev.cfg.config_mode_timer, 1_000_000 + 300_000_000);
}

#[test]
fn test_handle_api_read_all() {
    let mut dev = Device::zeroed_for_test();
    let mut hal = Hal::new();
    handle_api_read_all(&mut dev, &mut hal);
    let table = fields();
    let packets = &hal.config_packets;
    assert_eq!(packets.len(), table.len());
    for (i, field) in table.iter().enumerate() {
        assert_eq!(packets[i][0], PacketType::GetVal.to_u8());
        assert_eq!(packets[i][1], field.idx);
    }
}

#[test]
fn unknown_field_is_ignored() {
    let mut dev = Device::zeroed_for_test();
    let mut hal = Hal::new();
    hal.set_time(5);
    assert!(find_field(5).is_none());
    handle_api_msg(&mut dev, &mut hal, PacketType::GetVal.to_u8(), 5, &[0u8; 8]);
    assert!(hal.config_packets.is_empty());
    assert_eq!(dev.cfg.config_mode_timer, 0);
}

#[test]
fn signed_border_roundtrips_through_output_b() {
    let mut dev = Device::zeroed_for_test();
    let data = (-5i32).to_le_bytes();
    write_field(&mut dev, 45, &data);
    assert_eq!(dev.cfg.config.output[1].border.bottom, -5);
    let mut out = [0xAAu8; 8];
    read_field(&dev, 45, &mut out);
    assert_eq!(out, [0xFB, 0xFF, 0xFF, 0xFF, 0xAA, 0xAA, 0xAA, 0xAA]);
}

#[test]
fn idle_time_uses_seven_bytes() {
    let mut dev = Device::zeroed_for_test();
    write_field(&mut dev, 21, &[1, 2, 3, 4, 5, 6, 7, 8]);
    assert_eq!(dev.cfg.config.output[0].screensaver.idle_time_us, 0x0007_0605_0403_0201);
    let mut out = [0u8; 8];
    read_field(&dev, 21, &mut out);
    assert_eq!(out, [1, 2, 3, 4, 5, 6, 7, 0]);
}

#[test]
fn readonly_pointer_is_readable() {
    let mut dev = Device::zeroed_for_test();
    dev.hid.pointer_x = -2;
    let mut out = [0u8; 8];
    read_field(&dev, 1, &mut out);
    assert_eq!(&out[..2], &[0xFE, 0xFF]);
    let before = dev.hid.pointer_x;
    write_field(&mut dev, 1, &[0, 0]);
    assert_eq!(dev.hid.pointer_x, before);
}

#[test]
fn field_table_has_forty_six_entries() {
    assert_eq!(fields().len(), 46);
    assert!(find_field(85).unwrap().len == 4);
    assert!(find_field(78).unwrap().readonly);
}

#[test]
fn read_field_fills_a_slice_of_exactly_its_width() {
    let mut dev = Device::zeroed_for_test();
    write_field(&mut dev, 77, &0x1234u16.to_le_bytes());
    let mut out = [0xAAu8; 2];
    read_field(&dev, 77, &mut out[..]);
    assert_eq!(out, [0x34, 0x12]);
    let mut wide = vec![0xAAu8; 10];
    read_field(&dev, 77, &mut wide);
    assert_eq!(wide, vec![0x34, 0x12, 0xAA, 0xAA, 0xAA, 0xAA, 0xAA, 0xAA, 0xAA, 0xAA]);
    let mut untouched = [0x55u8; 3];
    read_field(&dev, 99, &mut untouched);
    assert_eq!(untouched, [0x55; 3]);
}
