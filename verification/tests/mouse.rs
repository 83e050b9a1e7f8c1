use lib::mouse::{is_screen_switch_needed, mouse_acceleration_ratio, move_and_keep_on_screen, scale_y_coordinate};

#[test]
fn test_move_and_keep_on_screen_normal() {
    assert_eq!(move_and_keep_on_screen(100, 50), 150);
    assert_eq!(move_and_keep_on_screen(16000, 16000), 32000);
}

#[test]
fn test_move_and_keep_on_screen_clamp_low() {
    assert_eq!(move_and_keep_on_screen(10, -100), 0);
    assert_eq!(move_and_keep_on_screen(0, -1), 0);
}

#[test]
fn test_move_and_keep_on_screen_clamp_high() {
    assert_eq!(move_and_keep_on_screen(32000, 1000), 32767);
    assert_eq!(move_and_keep_on_screen(32767, 1), 32767);
}

#[test]
fn test_is_screen_switch_needed() {
    assert_eq!(is_screen_switch_needed(100, -200, 0), -1);
    assert_eq!(is_screen_switch_needed(32700, 200, 0), 1);
    assert_eq!(is_screen_switch_needed(16000, 100, 0), 0);
}

#[test]
fn test_is_screen_switch_with_threshold() {
    assert_eq!(is_screen_switch_needed(50, -50, 100), 0);
    assert_eq!(is_screen_switch_needed(50, -200, 100), -1);
}

#[test]
fn test_scale_y_same_size() {
    assert_eq!(scale_y_coordinate(16000, (0, 32767), (0, 32767)), 16000);
}

#[test]
fn test_scale_y_smaller_to_bigger() {
    let y = scale_y_coordinate(16383, (0, 32767), (8000, 24000));
    assert!(y > 8000 && y < 24000);
}

#[test]
fn test_scale_y_out_of_bounds() {
    assert_eq!(scale_y_coordinate(-10, (100, 200), (0, 32767)), 0);
    assert_eq!(scale_y_coordinate(250, (100, 200), (0, 32767)), 32767);
}

#[test]
fn scale_y_exact_values() {
    assert_eq!(scale_y_coordinate(16383, (0, 32767), (8000, 24000)) as i32, 8000 + (16000i32 * 16383) / 32767);
    assert_eq!(scale_y_coordinate(150, (100, 200), (0, 32767)), ((50 * 32767) / 100) as i16);
}

fn acceleration_factor(x: i32, y: i32, enabled: bool) -> f32 {
    let (num, den) = mouse_acceleration_ratio(x, y, enabled);
    num as f32 / den as f32
}

#[test]
fn test_acceleration_disabled() {
    assert_eq!(acceleration_factor(100, 100, false), 1.0);
}

#[test]
fn test_acceleration_zero_movement() {
    assert_eq!(acceleration_factor(0, 0, true), 1.0);
}

#[test]
fn test_acceleration_small_movement() {
    let factor = acceleration_factor(1, 0, true);
    assert!((factor - 1.0).abs() < 0.01);
}

#[test]
fn test_acceleration_large_movement() {
    let factor = acceleration_factor(70, 0, true);
    assert!(factor >= 3.0);
}
