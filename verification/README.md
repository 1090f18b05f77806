# esp32_gamepad

Firmware logic of an ESP32 handheld: a 4x4 button matrix plus a back button,
two analog sticks, an SH1106 OLED with a small menu system, and a Bluetooth HID
gamepad mode.

- `src/` is the library, verified with Verus:
  - `input::joysticks`: raw ADC reading to HID axis (`raw_to_axis`), stick
    direction predicates, laws on range, dead zone, full scale and monotonicity.
  - `input::buttons`: decoding of one matrix scan into a `ButtonState`.
  - `bluetooth::gamepad`: HID button bits, the gamepad report, its wire bytes,
    and the press/release laws.
  - `display::menu`, `display::games`: the main and games menus as state
    machines stepped once per button scan.
  - `games::debug`: the text of the input debug screen.
- `app/` drives the hardware (GPIO, ADC, I2C display, NimBLE) and calls the
  library for every decision.
- `tests/` runs the library on concrete inputs.
