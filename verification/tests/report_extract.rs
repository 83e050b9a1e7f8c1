use lib::hid_parser::{ReportVal, VARIABLE};
use lib::report_extract::{extract_kbd_data, extract_mouse_values, mouse_report_readable};
use lib::structs::HidInterface;

fn boot_iface() -> HidInterface {
    HidInterface { protocol: 0, ..HidInterface::default() }
}

fn report_iface() -> HidInterface {
    HidInterface { protocol: 1, ..HidInterface::default() }
}

#[test]
fn short_keyboard_report_gives_nothing() {
    let (n, out) = extract_kbd_data(&[1, 2, 3], &report_iface());
    assert_eq!(n, 0);
    assert_eq!(out, [0u8; 8]);
}

#[test]
fn boot_keyboard_report_copied() {
    let (n, out) = extract_kbd_data(&[2, 0, 4, 5, 0, 0, 0, 0], &boot_iface());
    assert_eq!(n, 8);
    assert_eq!(out, [2, 0, 4, 5, 0, 0, 0, 0]);
}

#[test]
fn nine_byte_report_skips_id() {
    let (n, out) = extract_kbd_data(&[1, 2, 0, 4, 5, 0, 0, 0, 0], &report_iface());
    assert_eq!(n, 8);
    assert_eq!(out, [2, 0, 4, 5, 0, 0, 0, 0]);
}

#[test]
fn array_layout_keys_in_slot_order() {
    let mut iface = report_iface();
    iface.uses_report_id = true;
    iface.num_keyboards = 1;
    iface.keyboards[0].modifier.offset_idx = 0;
    for i in 2..10 {
        iface.keyboards[0].key_array[i] = true;
    }
    let raw = [1u8, 0x02, 0, 4, 5, 6, 7, 8, 9, 10, 11];
    let (n, out) = extract_kbd_data(&raw, &iface);
    assert_eq!(n, 8);
    assert_eq!(out, [0x02, 0, 4, 5, 6, 7, 8, 9]);
}

#[test]
fn nkro_bitmap_gives_key_codes() {
    let mut iface = report_iface();
    iface.num_keyboards = 1;
    let k = &mut iface.keyboards[0];
    k.is_nkro = true;
    k.modifier = ReportVal { size: 8, offset_idx: 0, ..ReportVal::default() };
    k.nkro = ReportVal { size: 16, offset_idx: 1, usage_min: 4, usage_max: 19, data_type: VARIABLE, ..ReportVal::default() };
    // modifier, then bits for usages 4.. : bit0 -> 4 ('a'), bit2 -> 6
    let raw = [0x01u8, 0b0000_0101, 0, 0, 0, 0, 0, 0, 0, 0];
    let (n, out) = extract_kbd_data(&raw, &iface);
    assert_eq!(n, 2);
    assert_eq!(out, [0x01, 0, 4, 6, 0, 0, 0, 0]);
}

#[test]
fn nkro_with_bad_layout_rejected() {
    let mut iface = report_iface();
    iface.num_keyboards = 1;
    iface.keyboards[0].is_nkro = true;
    iface.keyboards[0].modifier.size = 8;
    iface.keyboards[0].nkro = ReportVal { size: 10, usage_min: 0, usage_max: 100, ..ReportVal::default() };
    let (n, _) = extract_kbd_data(&[0u8; 10], &iface);
    assert_eq!(n, -1);
}

#[test]
fn boot_mouse_values() {
    let v = extract_mouse_values(&[0x01, 0xFF, 0x02, 0x01], &boot_iface(), 0);
    assert_eq!((v.buttons, v.move_x, v.move_y, v.wheel, v.pan), (1, -1, 2, 1, 0));
}

#[test]
fn descriptor_mouse_values_with_report_id() {
    let mut iface = report_iface();
    iface.uses_report_id = true;
    iface.mouse.buttons = ReportVal { report_id: 2, offset: 0, size: 8, ..ReportVal::default() };
    iface.mouse.move_x = ReportVal { report_id: 2, offset: 8, size: 16, ..ReportVal::default() };
    iface.mouse.move_y = ReportVal { report_id: 2, offset: 24, size: 16, ..ReportVal::default() };
    iface.mouse.wheel = ReportVal { report_id: 3, offset: 0, size: 8, ..ReportVal::default() };
    iface.mouse.pan = ReportVal { report_id: 3, offset: 8, size: 8, ..ReportVal::default() };
    let raw = [2u8, 0x01, 0xFE, 0xFF, 0x05, 0x00];
    let v = extract_mouse_values(&raw, &iface, 7);
    assert_eq!(v.buttons, 1);
    assert_eq!(v.move_x, -2);
    assert_eq!(v.move_y, 5);
    assert_eq!(v.wheel, 0);
    assert_eq!(v.pan, 0);
}

#[test]
fn mouse_buttons_fall_back_when_report_lacks_them() {
    let mut iface = report_iface();
    iface.uses_report_id = true;
    iface.mouse.buttons = ReportVal { report_id: 2, offset: 0, size: 8, ..ReportVal::default() };
    let v = extract_mouse_values(&[3u8, 9, 9], &iface, 5);
    assert_eq!(v.buttons, 5);
}

#[test]
fn mouse_layout_readability() {
    assert!(mouse_report_readable(&boot_iface(), 1));
    let mut iface = report_iface();
    iface.mouse.move_x = ReportVal { offset: 8, size: 16, ..ReportVal::default() };
    assert!(mouse_report_readable(&iface, 4));
    iface.mouse.move_x = ReportVal { offset: 4, size: 40, ..ReportVal::default() };
    assert!(!mouse_report_readable(&iface, 8));
}
