use vstd::prelude::*;
use crate::constants::{MAX_SCREEN_COORD, MIN_SCREEN_COORD};

verus! {

/// Clamp an integer to the screen's coordinate range.
pub open spec fn clamp_to_screen(v: int) -> int {
    if v < MIN_SCREEN_COORD as int {
        MIN_SCREEN_COORD as int
    } else if v > MAX_SCREEN_COORD as int {
        MAX_SCREEN_COORD as int
    } else {
        v
    }
}

/// Move coordinate by offset, clamping to screen bounds [0, 32767].
pub fn move_and_keep_on_screen(position: i32, offset: i32) -> (r: i32)
    requires
        i32::MIN <= position + offset <= i32::MAX,
    ensures
        r == clamp_to_screen(position + offset),
        MIN_SCREEN_COORD <= r <= MAX_SCREEN_COORD,
{
    let result = position + offset;
    if result < MIN_SCREEN_COORD as i32 {
        MIN_SCREEN_COORD as i32
    } else if result > MAX_SCREEN_COORD as i32 {
        MAX_SCREEN_COORD as i32
    } else {
        result
    }
}

/// Which screen edge a movement crosses, beyond the jump threshold:
/// -1 past the left edge, 1 past the right edge, 0 neither.
pub open spec fn screen_switch_spec(position: int, offset: int, jump_threshold: int) -> int {
    if position + offset < MIN_SCREEN_COORD as int - jump_threshold {
        -1
    } else if position + offset > MAX_SCREEN_COORD as int + jump_threshold {
        1
    } else {
        0
    }
}

/// Absolute value.
pub open spec fn abs(v: int) -> int {
    if v < 0 { -v } else { v }
}

/// Check if movement would cross screen boundary (-1 left, 1 right, 0 none).
pub fn is_screen_switch_needed(position: i32, offset: i32, jump_threshold: u16) -> (r: i32)
    requires
        i32::MIN <= position + offset <= i32::MAX,
    ensures
        r == screen_switch_spec(position as int, offset as int, jump_threshold as int),
{
    if position + offset < MIN_SCREEN_COORD as i32 - jump_threshold as i32 {
        return -1;
    }
    if position + offset > MAX_SCREEN_COORD as i32 + jump_threshold as i32 {
        return 1;
    }
    0
}

/// Division rounding toward zero, as Rust's integer `/` does.
pub open spec fn tdiv(a: int, b: int) -> int {
    if a >= 0 {
        if b > 0 { a / b } else { -(a / -b) }
    } else {
        if b > 0 { -((-a) / b) } else { (-a) / (-b) }
    }
}

/// Truncating division of an i64 by a positive divisor.
fn tdiv_pos(a: i64, b: i64) -> (r: i64)
    requires
        b > 0,
        a > i64::MIN,
    ensures
        r == tdiv(a as int, b as int),
        -abs(a as int) <= r <= abs(a as int),
{
    if a >= 0 {
        assert(a / b <= a) by (nonlinear_arith) requires a >= 0, b > 0;
        a / b
    } else {
        let na: i64 = -a;
        assert(na / b <= na) by (nonlinear_arith) requires na >= 0, b > 0;
        let q = na / b;
        -q
    }
}

/// Scale the pointer's Y when switching between screens of different sizes;
/// `border_from`/`border_to` are the (top, bottom) Y positions of each screen.
pub open spec fn scale_y_spec(pointer_y: i16, from: (i32, i32), to: (i32, i32)) -> i16 {
    let size_from = from.1 - from.0;
    let size_to = to.1 - to.0;
    if size_from == size_to {
        pointer_y
    } else if size_from > size_to {
        (to.0 + tdiv(size_to * pointer_y, MAX_SCREEN_COORD as int)) as i16
    } else if (pointer_y as int) < from.0 {
        MIN_SCREEN_COORD
    } else if (pointer_y as int) > from.1 {
        MAX_SCREEN_COORD
    } else {
        tdiv((pointer_y - from.0) * MAX_SCREEN_COORD, size_from) as i16
    }
}

/// The inputs on which the scaling arithmetic stays inside i32.
pub open spec fn scale_y_defined(pointer_y: i16, from: (i32, i32), to: (i32, i32)) -> bool {
    let size_from = from.1 - from.0;
    let size_to = to.1 - to.0;
    &&& i32::MIN <= size_from <= i32::MAX
    &&& i32::MIN <= size_to <= i32::MAX
    &&& (size_from > size_to ==> i32::MIN <= size_to * pointer_y <= i32::MAX
        && i32::MIN <= to.0 + tdiv(size_to * pointer_y, MAX_SCREEN_COORD as int) <= i32::MAX)
    &&& (size_from < size_to && from.0 <= pointer_y <= from.1 ==> i32::MIN <= (pointer_y - from.0)
        * MAX_SCREEN_COORD <= i32::MAX && size_from != 0)
}

/// Scale Y coordinate when switching between screens of different sizes.
/// border_from/border_to are (top, bottom) tuples.
pub fn scale_y_coordinate(pointer_y: i16, border_from: (i32, i32), border_to: (i32, i32)) -> (r: i16)
    requires
        scale_y_defined(pointer_y, border_from, border_to),
    ensures
        r == scale_y_spec(pointer_y, border_from, border_to),
{
    let size_from = border_from.1 - border_from.0;
    let size_to = border_to.1 - border_to.0;
    if size_from == size_to {
        return pointer_y;
    }
    if size_from > size_to {
        let q = tdiv_pos((size_to * pointer_y as i32) as i64, MAX_SCREEN_COORD as i64);
        return (border_to.0 as i64 + q) as i16;
    }
    if (pointer_y as i32) < border_from.0 {
        return MIN_SCREEN_COORD;
    }
    if (pointer_y as i32) > border_from.1 {
        return MAX_SCREEN_COORD;
    }
    let num = (pointer_y as i32 - border_from.0) * MAX_SCREEN_COORD as i32;
    assert(num >= 0);
    assert(size_from > 0);
    (num / size_from) as i16
}

/// Scale the pointer's Y between two outputs whose borders are margins:
/// `(top, bottom)` counted inward from each screen edge.
pub open spec fn scale_y_margins_spec(pointer_y: i16, from: (i32, i32), to: (i32, i32)) -> i16 {
    let max = MAX_SCREEN_COORD as int;
    let from_range = max - from.0 - from.1;
    let to_range = max - to.0 - to.1;
    if from_range <= 0 || to_range <= 0 || from_range > max || to_range > max {
        pointer_y
    } else {
        let y = if (pointer_y as int) < from.0 {
            from.0 as int
        } else if (pointer_y as int) > max - from.1 {
            max - from.1
        } else {
            pointer_y as int
        };
        ((y - from.0) * to_range / from_range + to.0) as i16
    }
}

/// Scale the pointer's Y between outputs whose borders are margins from the
/// screen edges: the position inside the usable band of one screen maps to the
/// same relative position in the other's.
pub fn scale_y_between_margins(pointer_y: i16, from: (i32, i32), to: (i32, i32)) -> (r: i16)
    ensures
        r == scale_y_margins_spec(pointer_y, from, to),
{
    let max: i64 = MAX_SCREEN_COORD as i64;
    let from_range: i64 = max - from.0 as i64 - from.1 as i64;
    let to_range: i64 = max - to.0 as i64 - to.1 as i64;
    if from_range <= 0 || to_range <= 0 || from_range > max || to_range > max {
        return pointer_y;
    }
    let y: i64 = if (pointer_y as i64) < from.0 as i64 {
        from.0 as i64
    } else if (pointer_y as i64) > max - from.1 as i64 {
        max - from.1 as i64
    } else {
        pointer_y as i64
    };
    assert(0 <= y - from.0 <= from_range);
    assert((y - from.0) * to_range <= from_range * to_range) by (nonlinear_arith)
        requires 0 <= y - from.0 <= from_range, to_range > 0;
    assert(from_range * to_range <= max * max) by (nonlinear_arith)
        requires 0 < from_range <= max, 0 < to_range <= max;
    let prod: i64 = (y - from.0 as i64) * to_range;
    assert(prod / from_range <= prod) by (nonlinear_arith) requires prod >= 0, from_range > 0;
    ((prod / from_range) + to.0 as i64) as i16
}

/// Extracted mouse movement of one report.
#[derive(Clone, Copy, Debug)]
pub struct MouseValues {
    pub move_x: i32,
    pub move_y: i32,
    pub wheel: i32,
    pub pan: i32,
    pub buttons: i32,
}

/// Direction of a screen-edge crossing.
#[derive(Clone, Copy, Debug, PartialEq, Eq, Structural)]
pub enum SwitchDirection {
    NoEdge,
    Left,
    Right,
}

/// Wire/position code of a direction: LEFT = 1, RIGHT = 2.
pub open spec fn direction_code(d: SwitchDirection) -> int {
    match d {
        SwitchDirection::NoEdge => 0,
        SwitchDirection::Left => 1,
        SwitchDirection::Right => 2,
    }
}

/// Acceleration curve: (movement magnitude, factor in tenths).
pub open spec fn accel_point(i: int) -> (int, int) {
    if i == 0 { (2, 10) }
    else if i == 1 { (5, 11) }
    else if i == 2 { (15, 14) }
    else if i == 3 { (30, 19) }
    else if i == 4 { (45, 26) }
    else if i == 5 { (60, 34) }
    else { (70, 40) }
}

/// Magnitude estimate of a 2D movement, times ten: 10*max + 4*min of the
/// absolute components (alpha-max-beta-min with beta = 0.4).
pub open spec fn magnitude_x10(x: int, y: int) -> int {
    let ax = abs(x);
    let ay = abs(y);
    if ax > ay { 10 * ax + 4 * ay } else { 10 * ay + 4 * ax }
}

/// Acceleration factor as an exact fraction (numerator, denominator):
/// piecewise-linear interpolation over the curve, 1 when disabled or idle.
pub open spec fn accel_factor_spec(x: int, y: int, enabled: bool) -> (int, int) {
    let m = magnitude_x10(x, y);
    if (x == 0 && y == 0) || !enabled {
        (1, 1)
    } else if m <= 10 * accel_point(0).0 {
        (accel_point(0).1, 10)
    } else if m >= 10 * accel_point(6).0 {
        (accel_point(6).1, 10)
    } else {
        let i = if m < 10 * accel_point(1).0 { 0 }
            else if m < 10 * accel_point(2).0 { 1 }
            else if m < 10 * accel_point(3).0 { 2 }
            else if m < 10 * accel_point(4).0 { 3 }
            else if m < 10 * accel_point(5).0 { 4 }
            else { 5 };
        let lo = accel_point(i);
        let hi = accel_point(i + 1);
        let dv = hi.0 - lo.0;
        (lo.1 * 10 * dv + (m - 10 * lo.0) * (hi.1 - lo.1), 100 * dv)
    }
}

/// The acceleration factor depends on how far the pointer moved, not on
/// the direction: swapping the axes or reversing either of them leaves it
/// unchanged.
pub proof fn lemma_accel_factor_direction_free(x: int, y: int, enabled: bool)
    ensures
        accel_factor_spec(x, y, enabled) == accel_factor_spec(y, x, enabled),
        accel_factor_spec(x, y, enabled) == accel_factor_spec(-x, y, enabled),
        accel_factor_spec(x, y, enabled) == accel_factor_spec(x, -y, enabled),
{
}

/// The factor is exactly one (the fraction 1/1) only for no movement or
/// with acceleration off; a movement of at least 70 along either axis gets
/// the top of the curve, four; a movement of at most one along each axis
/// gets the bottom of the curve, one (as 10/10).
pub proof fn lemma_accel_factor_ends(x: int, y: int, enabled: bool)
    ensures
        (accel_factor_spec(x, y, enabled) == (1int, 1int)) <==> ((x == 0 && y == 0) || !enabled),
        enabled && (x >= 70 || x <= -70 || y >= 70 || y <= -70) ==> accel_factor_spec(x, y, enabled) == (40int, 10int),
        enabled && !(x == 0 && y == 0) && -1 <= x <= 1 && -1 <= y <= 1 ==> accel_factor_spec(x, y, enabled) == (10int, 10int),
{
}

/// A faster movement is never accelerated less: along one axis, the
/// factor of a larger movement is at least that of a smaller one.
pub proof fn lemma_accel_factor_grows(a: int, b: int)
    requires
        0 < a <= b,
    ensures
        accel_factor_spec(a, 0, true).0 * accel_factor_spec(b, 0, true).1
            <= accel_factor_spec(b, 0, true).0 * accel_factor_spec(a, 0, true).1,
{
    let fa = accel_factor_spec(a, 0, true);
    let fb = accel_factor_spec(b, 0, true);
    assert(fa.0 * fb.1 <= fb.0 * fa.1) by (nonlinear_arith)
        requires
            0 < a <= b,
            fa == accel_factor_spec(a, 0, true),
            fb == accel_factor_spec(b, 0, true),
    {
    }
}

/// Acceleration factor of a movement as an exact fraction (numerator,
/// denominator), the same curve the float version interpolates.
pub fn mouse_acceleration_ratio(offset_x: i32, offset_y: i32, enabled: bool) -> (r: (i64, i64))
    ensures
        r.0 as int == accel_factor_spec(offset_x as int, offset_y as int, enabled).0,
        r.1 as int == accel_factor_spec(offset_x as int, offset_y as int, enabled).1,
        r.1 > 0,
        r.1 <= r.0 <= 4 * r.1,
        r.1 <= 1500,
{
    if (offset_x == 0 && offset_y == 0) || !enabled {
        return (1, 1);
    }
    let ax: i64 = if offset_x < 0 { -(offset_x as i64) } else { offset_x as i64 };
    let ay: i64 = if offset_y < 0 { -(offset_y as i64) } else { offset_y as i64 };
    let m: i64 = if ax > ay { 10 * ax + 4 * ay } else { 10 * ay + 4 * ax };
    if m <= 20 {
        return (10, 10);
    }
    if m >= 700 {
        return (40, 10);
    }
    let (lv, lf, hv, hf): (i64, i64, i64, i64) = if m < 50 { (2, 10, 5, 11) }
        else if m < 150 { (5, 11, 15, 14) }
        else if m < 300 { (15, 14, 30, 19) }
        else if m < 450 { (30, 19, 45, 26) }
        else if m < 600 { (45, 26, 60, 34) }
        else { (60, 34, 70, 40) };
    let dv = hv - lv;
    assert(0 < dv <= 15 && 10 <= lf <= 34 && 0 <= hf - lf <= 8 && 0 <= m - 10 * lv <= 10 * dv);
    assert(lf * 10 * dv <= 34 * 10 * 15) by (nonlinear_arith) requires 0 < dv <= 15, 10 <= lf <= 34;
    assert((m - 10 * lv) * (hf - lf) <= 150 * 8) by (nonlinear_arith)
        requires 0 <= m - 10 * lv <= 150, 0 <= hf - lf <= 8;
    assert((m - 10 * lv) * (hf - lf) >= 0) by (nonlinear_arith)
        requires 0 <= m - 10 * lv, 0 <= hf - lf;
    let num = lf * 10 * dv + (m - 10 * lv) * (hf - lf);
    assert(lf * 10 * dv + (m - 10 * lv) * (hf - lf) <= 4 * (100 * dv)) by (nonlinear_arith)
        requires 0 <= m - 10 * lv <= 10 * dv, 0 <= hf - lf, hf <= 40, dv > 0;
    assert(lf * 10 * dv + (m - 10 * lv) * (hf - lf) >= 100 * dv) by (nonlinear_arith)
        requires 0 <= m - 10 * lv, 0 <= hf - lf, lf >= 10, dv > 0;
    (num, 100 * dv)
}

/// Round-half-away-from-zero of `n / d` for positive `d`.
pub open spec fn round_div(n: int, d: int) -> int {
    if n >= 0 { (2 * n + d) / (2 * d) } else { -((2 * (-n) + d) / (2 * d)) }
}

/// Pointer displacement of one axis: movement times acceleration times the
/// output's speed (quartered while zoomed), rounded to the nearest integer.
pub open spec fn axis_offset(movement: int, speed: int, zoom: bool, num: int, den: int) -> int {
    let s = if zoom { speed / 4 } else { speed };
    round_div(movement * s * num, den)
}

/// Saturate an integer into i32.
pub open spec fn sat_i32(v: int) -> int {
    if v < i32::MIN { i32::MIN as int } else if v > i32::MAX { i32::MAX as int } else { v }
}

/// Displacement of one axis, saturated into i32.
fn compute_offset(movement: i32, speed: i32, zoom: bool, num: i64, den: i64) -> (r: i32)
    requires
        0 < den <= 1500,
        den <= num <= 4 * den,
    ensures
        r == sat_i32(axis_offset(movement as int, speed as int, zoom, num as int, den as int)),
{
    let s: i64 = if zoom {
        if speed >= 0 { (speed as i64) / 4 } else { -((-(speed as i64) + 3) / 4) }
    } else {
        speed as i64
    };
    let a: i128 = movement as i128;
    let b: i128 = s as i128;
    assert(-0x4000_0000_0000_0000 <= a * b <= 0x4000_0000_0000_0000)
        by (nonlinear_arith) requires -0x8000_0000 <= a <= 0x8000_0000, -0x8000_0000 <= b <= 0x8000_0000;
    let ms: i128 = a * b;
    let c: i128 = num as i128;
    assert(-0x4000_0000_0000_0000 * 6000 <= ms * c <= 0x4000_0000_0000_0000 * 6000)
        by (nonlinear_arith) requires -0x4000_0000_0000_0000 <= ms <= 0x4000_0000_0000_0000, 0 < c <= 6000;
    let n: i128 = ms * c;
    let d: i128 = den as i128;
    let q: i128 = if n >= 0 { (2 * n + d) / (2 * d) } else { -((2 * (-n) + d) / (2 * d)) };
    assert(n >= 0 ==> (2 * n + d) / (2 * d) <= n + 1) by (nonlinear_arith) requires d > 0;
    assert(n < 0 ==> (2 * (-n) + d) / (2 * d) <= -n + 1) by (nonlinear_arith) requires d > 0;
    if q < i32::MIN as i128 {
        i32::MIN
    } else if q > i32::MAX as i128 {
        i32::MAX
    } else {
        q as i32
    }
}

/// Pointer position after a report, and the edge it crossed (if any).
pub open spec fn updated_position(
    pointer_x: i16,
    pointer_y: i16,
    values: MouseValues,
    speed_x: i32,
    speed_y: i32,
    zoom: bool,
    accel: bool,
    jump_threshold: u16,
) -> (i16, i16, SwitchDirection) {
    let f = accel_factor_spec(values.move_x as int, values.move_y as int, accel);
    let ox = sat_i32(axis_offset(values.move_x as int, speed_x as int, zoom, f.0, f.1));
    let oy = sat_i32(axis_offset(values.move_y as int, speed_y as int, zoom, f.0, f.1));
    let dir = if pointer_x + ox < MIN_SCREEN_COORD as int - jump_threshold {
        SwitchDirection::Left
    } else if pointer_x + ox > MAX_SCREEN_COORD as int + jump_threshold {
        SwitchDirection::Right
    } else {
        SwitchDirection::NoEdge
    };
    (clamp_to_screen(pointer_x + ox) as i16, clamp_to_screen(pointer_y + oy) as i16, dir)
}

/// Apply one report's movement to the pointer: scale by speed, zoom and
/// acceleration, keep it on screen, and report a crossed screen edge.
pub fn update_mouse_position(
    pointer_x: i16,
    pointer_y: i16,
    values: &MouseValues,
    speed_x: i32,
    speed_y: i32,
    mouse_zoom: bool,
    acceleration_enabled: bool,
    jump_threshold: u16,
) -> (r: (i16, i16, SwitchDirection))
    ensures
        r == updated_position(pointer_x, pointer_y, *values, speed_x, speed_y, mouse_zoom,
            acceleration_enabled, jump_threshold),
        MIN_SCREEN_COORD <= r.0 <= MAX_SCREEN_COORD,
        MIN_SCREEN_COORD <= r.1 <= MAX_SCREEN_COORD,
{
    let (num, den) = mouse_acceleration_ratio(values.move_x, values.move_y, acceleration_enabled);
    let ox = compute_offset(values.move_x, speed_x, mouse_zoom, num, den);
    let oy = compute_offset(values.move_y, speed_y, mouse_zoom, num, den);
    let nx: i64 = pointer_x as i64 + ox as i64;
    let ny: i64 = pointer_y as i64 + oy as i64;
    let dir = if nx < MIN_SCREEN_COORD as i64 - jump_threshold as i64 {
        SwitchDirection::Left
    } else if nx > MAX_SCREEN_COORD as i64 + jump_threshold as i64 {
        SwitchDirection::Right
    } else {
        SwitchDirection::NoEdge
    };
    let cx: i16 = if nx < MIN_SCREEN_COORD as i64 { MIN_SCREEN_COORD }
        else if nx > MAX_SCREEN_COORD as i64 { MAX_SCREEN_COORD } else { nx as i16 };
    let cy: i16 = if ny < MIN_SCREEN_COORD as i64 { MIN_SCREEN_COORD }
        else if ny > MAX_SCREEN_COORD as i64 { MAX_SCREEN_COORD } else { ny as i16 };
    (cx, cy, dir)
}

/// A mouse report as sent to the host.
#[derive(Clone, Copy, Debug, Default)]
pub struct MouseReport {
    pub buttons: u8,
    pub x: i16,
    pub y: i16,
    pub wheel: i8,
    pub pan: i8,
    pub mode: u8,
}

/// The report for the host: absolute pointer position, or the raw movement
/// in relative mode (Windows multi-desktop workaround, gaming mode).
pub open spec fn mouse_report_spec(
    pointer_x: i16,
    pointer_y: i16,
    values: MouseValues,
    relative_mouse: bool,
    gaming_mode: bool,
) -> MouseReport {
    if relative_mouse || gaming_mode {
        MouseReport {
            buttons: values.buttons as u8,
            x: values.move_x as i16,
            y: values.move_y as i16,
            wheel: values.wheel as i8,
            pan: values.pan as i8,
            mode: crate::constants::RELATIVE,
        }
    } else {
        MouseReport {
            buttons: values.buttons as u8,
            x: pointer_x,
            y: pointer_y,
            wheel: values.wheel as i8,
            pan: values.pan as i8,
            mode: crate::constants::ABSOLUTE,
        }
    }
}

/// Build the mouse report sent to the host.
pub fn create_mouse_report(
    pointer_x: i16,
    pointer_y: i16,
    values: &MouseValues,
    relative_mouse: bool,
    gaming_mode: bool,
) -> (r: MouseReport)
    ensures
        r == mouse_report_spec(pointer_x, pointer_y, *values, relative_mouse, gaming_mode),
{
    if relative_mouse || gaming_mode {
        MouseReport {
            buttons: values.buttons as u8,
            x: values.move_x as i16,
            y: values.move_y as i16,
            wheel: values.wheel as i8,
            pan: values.pan as i8,
            mode: crate::constants::RELATIVE,
        }
    } else {
        MouseReport {
            buttons: values.buttons as u8,
            x: pointer_x,
            y: pointer_y,
            wheel: values.wheel as i8,
            pan: values.pan as i8,
            mode: crate::constants::ABSOLUTE,
        }
    }
}

/// Little-endian bytes of a 16-bit value.
pub open spec fn le16_lo(v: i16) -> u8 {
    ((v as u16) & 0xff) as u8
}

pub open spec fn le16_hi(v: i16) -> u8 {
    ((v as u16) >> 8u16) as u8
}

/// Serialized 8-byte mouse report: buttons, x, y (little-endian), wheel, pan, mode.
pub open spec fn mouse_report_bytes_spec(m: MouseReport) -> [u8; 8] {
    [m.buttons, le16_lo(m.x), le16_hi(m.x), le16_lo(m.y), le16_hi(m.y), m.wheel as u8, m.pan as u8,
        m.mode]
}

/// Little-endian bytes of an i16.
pub fn i16_le_bytes(v: i16) -> (r: (u8, u8))
    ensures
        r.0 == le16_lo(v),
        r.1 == le16_hi(v),
{
    let u = v as u16;
    ((u & 0xff) as u8, (u >> 8u16) as u8)
}

/// An i16 rebuilt from its little-endian bytes.
pub open spec fn i16_from_le(lo: u8, hi: u8) -> i16 {
    ((lo as u16) | ((hi as u16) << 8u16)) as i16
}

/// Read an i16 from its little-endian bytes.
pub fn i16_from_le_bytes(lo: u8, hi: u8) -> (r: i16)
    ensures
        r == i16_from_le(lo, hi),
{
    ((lo as u16) | ((hi as u16) << 8u16)) as i16
}

/// Splitting an i16 into little-endian bytes and reading it back gives it back.
pub proof fn lemma_i16_le_roundtrip(v: i16)
    ensures
        i16_from_le(le16_lo(v), le16_hi(v)) == v,
{
    assert((((((v as u16) & 0xff) as u8) as u16) | (((((v as u16) >> 8u16) as u8) as u16)
        << 8u16)) as i16 == v) by (bit_vector);
}

/// Serialize a mouse report into its 8 wire bytes.
pub fn mouse_report_to_bytes(m: &MouseReport) -> (r: [u8; 8])
    ensures
        r == mouse_report_bytes_spec(*m),
{
    let (x0, x1) = i16_le_bytes(m.x);
    let (y0, y1) = i16_le_bytes(m.y);
    let r = [m.buttons, x0, x1, y0, y1, m.wheel as u8, m.pan as u8, m.mode];
    assert(r =~= mouse_report_bytes_spec(*m));
    r
}

/// Inputs of the screen-switch decision.
#[derive(Clone, Copy, Debug)]
pub struct SwitchContext {
    pub switch_lock: bool,
    pub gaming_mode: bool,
    pub mouse_buttons: i16,
    pub screen_pos: u8,
    pub screen_index: u32,
    pub screen_count: u32,
}

/// What a screen-edge crossing leads to.
#[derive(Clone, Copy, Debug, PartialEq, Eq, Structural)]
pub enum ScreenSwitchAction {
    Nothing,
    SwitchToOtherPc,
    SwitchVirtualDesktop { new_index: u32 },
}

/// Decision for a crossing: no switching while locked or gaming; toward the
/// other computer, switch computers from the border desktop (buttons
/// released) or step a desktop back; away from it, step to the next desktop
/// if there is one.
pub open spec fn screen_switch_decision(direction: SwitchDirection, ctx: SwitchContext) -> ScreenSwitchAction {
    if ctx.switch_lock || ctx.gaming_mode || direction == SwitchDirection::NoEdge {
        ScreenSwitchAction::Nothing
    } else if ctx.screen_pos as int != direction_code(direction) {
        if ctx.screen_index == 1 {
            if ctx.mouse_buttons != 0 {
                ScreenSwitchAction::Nothing
            } else {
                ScreenSwitchAction::SwitchToOtherPc
            }
        } else {
            ScreenSwitchAction::SwitchVirtualDesktop {
                new_index: (if ctx.screen_index == 0 { u32::MAX as int } else { ctx.screen_index - 1 }) as u32,
            }
        }
    } else if ctx.screen_index < ctx.screen_count {
        ScreenSwitchAction::SwitchVirtualDesktop { new_index: (ctx.screen_index + 1) as u32 }
    } else {
        ScreenSwitchAction::Nothing
    }
}

/// Decide what a screen-edge crossing does.
pub fn decide_screen_switch(direction: SwitchDirection, ctx: &SwitchContext) -> (r: ScreenSwitchAction)
    ensures
        r == screen_switch_decision(direction, *ctx),
{
    if ctx.switch_lock || ctx.gaming_mode {
        return ScreenSwitchAction::Nothing;
    }
    let code: u8 = match direction {
        SwitchDirection::NoEdge => { return ScreenSwitchAction::Nothing; },
        SwitchDirection::Left => 1,
        SwitchDirection::Right => 2,
    };
    if ctx.screen_pos != code {
        if ctx.screen_index == 1 {
            if ctx.mouse_buttons != 0 {
                ScreenSwitchAction::Nothing
            } else {
                ScreenSwitchAction::SwitchToOtherPc
            }
        } else {
            ScreenSwitchAction::SwitchVirtualDesktop { new_index: ctx.screen_index.wrapping_sub(1) }
        }
    } else if ctx.screen_index < ctx.screen_count {
        ScreenSwitchAction::SwitchVirtualDesktop { new_index: ctx.screen_index + 1 }
    } else {
        ScreenSwitchAction::Nothing
    }
}

} // verus!
