use vstd::prelude::*;

verus! {

/// The entries of the main menu.
#[derive(Debug, Clone, Copy, PartialEq, Eq, Structural)]
pub enum MenuChoice {
    Games,
    Bluetooth,
    Settings,
}

// Pin numbers of the inputs. The drivers take typed pins, so these are for
// reference only.
pub const BTN_X_PIN: i32 = 34;
pub const BTN_Y_PIN: i32 = 35;
pub const BTN_A_PIN: i32 = 35;
pub const BTN_V_PIN: i32 = 35;

pub const BTN_UP_PIN: i32 = 32;
pub const BTN_DOWN_PIN: i32 = 33;
pub const BTN_LEFT_PIN: i32 = 25;
pub const BTN_RIGHT_PIN: i32 = 26;

pub const JOYSTICK_LEFT_X_PIN: i32 = 33;
pub const JOYSTICK_LEFT_Y_PIN: i32 = 33;
pub const JOYSTICK_RIGHT_X_PIN: i32 = 33;
pub const JOYSTICK_RIGHT_Y_PIN: i32 = 33;

pub const BTN_R1_PIN: i32 = 33;
pub const BTN_R2_PIN: i32 = 33;
pub const BTN_L1_PIN: i32 = 33;
pub const BTN_L2_PIN: i32 = 33;

// L3 and R3 have no pin of their own.

/// Width of the display in pixels.
pub const DISPLAY_WIDTH: u32 = 128;

/// Height of the display in pixels.
pub const DISPLAY_HEIGHT: u32 = 64;

} // verus!
