use esp32_gamepad::bluetooth::gamepad::{button_mask, Button, DPad, GamepadReport, REPORT_LEN};
use esp32_gamepad::input::buttons::ButtonState;
use esp32_gamepad::input::joysticks::JoystickState;

fn released() -> ButtonState {
    ButtonState::default()
}

#[test]
fn mask_of_no_buttons_is_zero() {
    assert_eq!(button_mask(&released()), 0);
}

#[test]
fn mask_bits_follow_hid_order() {
    let mut b = released();
    b.a = true;
    assert_eq!(button_mask(&b), Button::A);
    let mut b = released();
    b.start = true;
    assert_eq!(button_mask(&b), 0x8000);
    let mut b = released();
    b.x = true;
    b.up = true;
    b.r2 = true;
    b.select = true;
    assert_eq!(button_mask(&b), Button::X | Button::UP | Button::R2 | Button::SELECT);
    assert_eq!(button_mask(&b), 0x4814);
}

#[test]
fn mask_ignores_back() {
    let mut b = released();
    b.back = true;
    assert_eq!(button_mask(&b), 0);
}

#[test]
fn mask_all_buttons() {
    let b = ButtonState {
        x: true, y: true, a: true, b: true, up: true, down: true, left: true, right: true,
        l1: true, l2: true, r1: true, r2: true, l3: true, r3: true, start: true, select: true,
        back: true,
    };
    assert_eq!(button_mask(&b), 0xFFFF);
}

#[test]
fn button_constants() {
    let all = [
        Button::A, Button::B, Button::X, Button::Y, Button::UP, Button::DOWN, Button::LEFT,
        Button::RIGHT, Button::L1, Button::L2, Button::R1, Button::R2, Button::L3, Button::R3,
        Button::SELECT, Button::START,
    ];
    for (i, m) in all.iter().enumerate() {
        assert_eq!(*m, 1u16 << i);
    }
}

#[test]
fn report_from_inputs() {
    let mut b = released();
    b.b = true;
    b.l3 = true;
    let l = JoystickState { x: -127, y: 5 };
    let r = JoystickState { x: 127, y: -1 };
    let rep = GamepadReport::from_inputs(&b, &l, &r);
    assert_eq!(rep.buttons, Button::B | Button::L3);
    assert_eq!((rep.lx, rep.ly, rep.rx, rep.ry), (-127, 5, 127, -1));
}

#[test]
fn report_bytes_layout() {
    let rep = GamepadReport { buttons: 0x1234, lx: -127, ly: 0, rx: 127, ry: -1 };
    let bytes = rep.to_bytes();
    assert_eq!(bytes.len(), REPORT_LEN);
    assert_eq!(bytes, [0x34, 0x12, 0x81, 0x00, 0x7F, 0xFF]);
}

#[test]
fn report_bytes_match_packed_native_layout() {
    let rep = GamepadReport { buttons: 0xA5C3, lx: -3, ly: 7, rx: -128, ry: 100 };
    let mut expected = Vec::new();
    expected.extend_from_slice(&rep.buttons.to_le_bytes());
    expected.extend_from_slice(&[rep.lx as u8, rep.ly as u8, rep.rx as u8, rep.ry as u8]);
    assert_eq!(rep.to_bytes().to_vec(), expected);
}

#[test]
fn press_release() {
    let mut rep = GamepadReport::new();
    assert_eq!(rep, GamepadReport { buttons: 0, lx: 0, ly: 0, rx: 0, ry: 0 });
    rep.press(Button::A);
    rep.press(Button::START);
    assert_eq!(rep.buttons, 0x8001);
    rep.press(Button::A);
    assert_eq!(rep.buttons, 0x8001);
    rep.release(Button::A);
    assert_eq!(rep.buttons, 0x8000);
    rep.release(Button::A);
    assert_eq!(rep.buttons, 0x8000);
    rep.set_left_stick(10, -10);
    rep.set_right_stick(-20, 20);
    rep.release_all();
    assert_eq!(rep, GamepadReport { buttons: 0, lx: 10, ly: -10, rx: -20, ry: 20 });
}

#[test]
fn press_then_release_restores() {
    for start in [0u16, 0x00F0, 0x8001, 0xFFFF] {
        for m in [Button::A, Button::L2 | Button::R3, 0xFFFF] {
            let mut rep = GamepadReport::new();
            rep.press(start);
            rep.press(m);
            rep.release(m);
            assert_eq!(rep.buttons, start & !m);
            if start & m == 0 {
                assert_eq!(rep.buttons, start);
            }
        }
    }
}

#[test]
fn dpad_values() {
    let all = [
        DPad::North, DPad::NorthEast, DPad::East, DPad::SouthEast, DPad::South,
        DPad::SouthWest, DPad::West, DPad::NorthWest, DPad::Centered,
    ];
    for (i, d) in all.iter().enumerate() {
        assert_eq!(d.value() as usize, i);
    }
}
