use esp32_gamepad::input::joysticks::{raw_to_axis, JoystickState, CENTER, DEADZONE, MAX, MIN};

#[test]
fn axis_dead_zone_reads_zero() {
    assert_eq!(raw_to_axis(1075), 0);
    assert_eq!(raw_to_axis(975), 0);
    assert_eq!(raw_to_axis(1175), 0);
}

#[test]
fn axis_just_outside_dead_zone() {
    // 101 * 127 / 1375 = 9, -(101 * 127 / 1075) = -11
    assert_eq!(raw_to_axis(1176), 9);
    assert_eq!(raw_to_axis(974), -11);
}

#[test]
fn axis_scales_each_side_on_its_own_span() {
    assert_eq!(raw_to_axis(900), -20);
    assert_eq!(raw_to_axis(2000), 85);
    assert_eq!(raw_to_axis(500), -67);
}

#[test]
fn axis_full_scale_and_clamping() {
    assert_eq!(raw_to_axis(MAX as u16), 127);
    assert_eq!(raw_to_axis(MIN as u16), -127);
    assert_eq!(raw_to_axis(4095), 127);
    assert_eq!(raw_to_axis(u16::MAX), 127);
}

#[test]
fn axis_fallback_reading() {
    // 2048 is the reading used when a conversion fails: (973 * 127) / 1375 = 89
    assert_eq!(raw_to_axis(2048), 89);
}

#[test]
fn axis_stays_in_hid_range_and_is_monotone() {
    let mut prev = raw_to_axis(0);
    for raw in 0..=u16::MAX {
        let a = raw_to_axis(raw);
        assert!(a >= -127 && a <= 127);
        assert!(a >= prev);
        let d = raw as i32 - CENTER;
        assert_eq!(a == 0, d.abs() <= DEADZONE);
        assert_eq!(a > 0, d > DEADZONE);
        prev = a;
    }
}

#[test]
fn stick_from_readings_uses_fallback() {
    let s = JoystickState::from_readings(Some(1075), None);
    assert_eq!(s.x, 0);
    assert_eq!(s.y, raw_to_axis(2048));
    let s = JoystickState::from_readings(Some(0), Some(2450));
    assert_eq!((s.x, s.y), (-127, 127));
}

#[test]
fn stick_directions() {
    let s = JoystickState { x: -51, y: 51 };
    assert!(s.is_left() && !s.is_right() && s.is_down() && !s.is_up());
    let s = JoystickState { x: 51, y: -51 };
    assert!(s.is_right() && !s.is_left() && s.is_up() && !s.is_down());
    let s = JoystickState { x: -50, y: 50 };
    assert!(!s.is_left() && !s.is_right() && !s.is_up() && !s.is_down());
}

#[test]
fn stick_centered() {
    assert!(JoystickState { x: 19, y: -19 }.is_centered());
    assert!(!JoystickState { x: 20, y: 0 }.is_centered());
    assert!(!JoystickState { x: 0, y: -20 }.is_centered());
    assert!(JoystickState::default().is_centered());
    let s = JoystickState::default();
    assert!(!s.is_left() && !s.is_right() && !s.is_up() && !s.is_down());
}
