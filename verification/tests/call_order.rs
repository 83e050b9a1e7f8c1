use lib::constants::{PacketType, OS_ANDROID, OS_LINUX};
use lib::hal::{Hal, HalCall};
use lib::service::hotkey_dispatch::{execute_screenlock, prepare_config_mode, wipe_and_notify};
use lib::service::output::switch_output;
use lib::structs::Device;

#[test]
fn wipe_comes_before_load_then_the_peer_is_told() {
    let mut hal = Hal::new();
    wipe_and_notify(&mut hal);
    assert_eq!(
        hal.calls,
        vec![HalCall::Wipe, HalCall::Load, HalCall::SendValue(1, PacketType::WipeConfig.to_u8())]
    );
}

#[test]
fn config_mode_sets_boot_flag_once_before_the_release() {
    let mut hal = Hal::new();
    let mut state = Device::zeroed_for_test();
    prepare_config_mode(&mut state, &mut hal);
    assert_eq!(hal.calls, vec![HalCall::SetBootFlag, HalCall::PushKbdReport]);
    assert_eq!(hal.kbd_reports, vec![[0u8; 8]]);

    let mut hal = Hal::new();
    state.cfg.config_mode_active = true;
    prepare_config_mode(&mut state, &mut hal);
    assert_eq!(hal.calls, vec![HalCall::PushKbdReport]);
}

#[test]
fn output_switch_calls_in_order() {
    let mut hal = Hal::new();
    let mut state = Device::zeroed_for_test();
    state.cfg.board_role = 0;
    state.cfg.keyboard_connected = true;
    switch_output(&mut state, 1, &mut hal);
    assert_eq!(
        hal.calls,
        vec![
            HalCall::SetBoardLed(false),
            HalCall::SendKbdLeds,
            HalCall::SendValue(1, PacketType::OutputSelect.to_u8()),
            HalCall::PushKbdReport,
        ]
    );

    let mut hal = Hal::new();
    state.cfg.keyboard_connected = false;
    switch_output(&mut state, 0, &mut hal);
    assert_eq!(
        hal.calls,
        vec![
            HalCall::SetBoardLed(true),
            HalCall::SendValue(0, PacketType::OutputSelect.to_u8()),
            HalCall::PushKbdReport,
        ]
    );
}

#[test]
fn screenlock_handles_output_a_before_b() {
    let kbd = PacketType::KeyboardReport.to_u8();
    let mut hal = Hal::new();
    let mut state = Device::zeroed_for_test();
    state.cfg.board_role = 1;
    state.cfg.config.output[0].os = OS_LINUX;
    state.cfg.config.output[1].os = OS_LINUX;
    execute_screenlock(&mut state, &mut hal);
    assert_eq!(
        hal.calls,
        vec![HalCall::SendPacket(kbd), HalCall::SendPacket(kbd), HalCall::PushKbdReport, HalCall::PushKbdReport]
    );

    let mut hal = Hal::new();
    state.cfg.board_role = 0;
    state.cfg.config.output[1].os = OS_ANDROID;
    execute_screenlock(&mut state, &mut hal);
    assert_eq!(hal.calls, vec![HalCall::PushKbdReport, HalCall::PushKbdReport]);
}
