[package]
name = "esp32_gamepad"
version = "0.1.0"
edition = "2021"
publish = false

[dependencies]
anyhow = "*"
embedded-graphics = "*"
embedded-hal = "*"
esp32-nimble = "*"
esp-idf-svc = "*"
log = "*"
sh1106 = "*"
zerocopy = { version = "*", features = ["derive"] }
zerocopy-derive = "*"
