use esp32_gamepad::config::{BTN_LEFT_PIN, BTN_X_PIN, DISPLAY_HEIGHT, DISPLAY_WIDTH};
use esp32_gamepad::input::buttons::ButtonState;

#[test]
fn default_is_all_released() {
    let s = ButtonState::default();
    let none = ButtonState::from_matrix(&[[false; 4]; 4], false);
    assert_eq!(s, none);
    assert!(!s.back_requested());
}

#[test]
fn matrix_layout() {
    let mut pressed = [[false; 4]; 4];
    pressed[0][3] = true; // B
    pressed[1][2] = true; // LEFT
    pressed[2][0] = true; // L1
    pressed[3][3] = true; // SELECT
    let s = ButtonState::from_matrix(&pressed, true);
    assert!(s.b && s.left && s.l1 && s.select && s.back);
    assert!(!s.x && !s.y && !s.a && !s.up && !s.down && !s.right);
    assert!(!s.l2 && !s.r1 && !s.r2 && !s.l3 && !s.r3 && !s.start);
    assert!(s.back_requested());
}

#[test]
fn matrix_each_cell_is_one_button() {
    for row in 0..4 {
        for col in 0..4 {
            let mut pressed = [[false; 4]; 4];
            pressed[row][col] = true;
            let s = ButtonState::from_matrix(&pressed, false);
            let flags = [
                s.x, s.y, s.a, s.b, s.up, s.down, s.left, s.right, s.l1, s.l2, s.r1, s.r2,
                s.l3, s.r3, s.start, s.select,
            ];
            for (i, f) in flags.iter().enumerate() {
                assert_eq!(*f, i == row * 4 + col);
            }
            assert!(!s.back);
        }
    }
}

#[test]
fn config_constants() {
    assert_eq!((DISPLAY_WIDTH, DISPLAY_HEIGHT), (128, 64));
    assert_eq!((BTN_X_PIN, BTN_LEFT_PIN), (34, 25));
}
