use esp32_gamepad::games::debug::debug_text;
use esp32_gamepad::input::buttons::ButtonState;
use esp32_gamepad::input::joysticks::JoystickState;

fn expected(b: &ButtonState, l: &JoystickState, r: &JoystickState) -> String {
    format!("x :{}, y  :{}, a  :{},\n b  :{} up:  {},\n down:  {},\n, left:{}, right:{} \n l1:{},l2:{}, r1:{}, r2:{}\n l3:{}, r3:{}, start:{}, select:{}, back:{}\n lx :{}, ly :{}\n rx :{}, ry :{}  ",
        b.x, b.y, b.a, b.b, b.up, b.down, b.left, b.right, b.l1, b.l2, b.r1, b.r2, b.l3, b.r3,
        b.start, b.select, b.back, l.x, l.y, r.x, r.y)
}

#[test]
fn debug_text_idle() {
    let b = ButtonState::default();
    let s = JoystickState::default();
    assert_eq!(debug_text(&b, &s, &s), expected(&b, &s, &s));
}

#[test]
fn debug_text_values() {
    let mut b = ButtonState::default();
    b.x = true;
    b.down = true;
    b.r2 = true;
    let l = JoystickState { x: -128, y: 127 };
    let r = JoystickState { x: -7, y: 42 };
    let t = debug_text(&b, &l, &r);
    assert_eq!(t, expected(&b, &l, &r));
    assert!(t.contains("lx :-128, ly :127"));
    assert!(t.contains("rx :-7, ry :42  "));
}

#[test]
fn debug_text_all_axis_values() {
    let b = ButtonState::default();
    for v in i8::MIN..=i8::MAX {
        let s = JoystickState { x: v, y: v };
        assert_eq!(debug_text(&b, &s, &s), expected(&b, &s, &s));
    }
}

#[test]
fn debug_text_shows_every_button() {
    let s = JoystickState::default();
    let idle = debug_text(&ButtonState::default(), &s, &s);
    for i in 0..17 {
        let mut b = ButtonState::default();
        let flags = [
            &mut b.x, &mut b.y, &mut b.a, &mut b.b, &mut b.up, &mut b.down, &mut b.left,
            &mut b.right, &mut b.l1, &mut b.l2, &mut b.r1, &mut b.r2, &mut b.l3, &mut b.r3,
            &mut b.start, &mut b.select, &mut b.back,
        ];
        *flags.into_iter().nth(i).unwrap() = true;
        let t = debug_text(&b, &s, &s);
        assert_ne!(t, idle);
        assert_eq!(t, expected(&b, &s, &s));
    }
}
