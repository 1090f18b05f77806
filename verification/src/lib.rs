//! Input decoding, menu navigation and HID report logic of an ESP32 gamepad.

pub mod bluetooth;
pub mod config;
pub mod display;
pub mod games;
pub mod input;
