pub mod buttons;
pub mod joysticks;
