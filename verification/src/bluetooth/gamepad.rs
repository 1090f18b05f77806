use vstd::prelude::*;
use crate::input::buttons::ButtonState;
use crate::input::joysticks::JoystickState;

verus! {

/// Bit masks of the sixteen HID buttons in the gamepad report.
pub struct Button;

impl Button {
    // Action
    pub const A: u16 = 0x0001;
    pub const B: u16 = 0x0002;
    pub const X: u16 = 0x0004;
    pub const Y: u16 = 0x0008;
    // D-pad
    pub const UP: u16 = 0x0010;
    pub const DOWN: u16 = 0x0020;
    pub const LEFT: u16 = 0x0040;
    pub const RIGHT: u16 = 0x0080;
    // Triggers
    pub const L1: u16 = 0x0100;
    pub const L2: u16 = 0x0200;
    pub const R1: u16 = 0x0400;
    pub const R2: u16 = 0x0800;
    // Stick clicks
    pub const L3: u16 = 0x1000;
    pub const R3: u16 = 0x2000;
    // Menu
    pub const SELECT: u16 = 0x4000;
    pub const START: u16 = 0x8000;
}

/// The mask of a button: its bit when pressed, otherwise nothing.
#[verifier::opaque]
pub open spec fn pressed_bit(pressed: bool, mask: u16) -> u16 {
    if pressed {
        mask
    } else {
        0
    }
}

/// The sixteen button bits for the given flags, in HID order.
#[verifier::opaque]
pub open spec fn flags_mask(
    a: bool,
    b: bool,
    x: bool,
    y: bool,
    up: bool,
    down: bool,
    left: bool,
    right: bool,
    l1: bool,
    l2: bool,
    r1: bool,
    r2: bool,
    l3: bool,
    r3: bool,
    select: bool,
    start: bool,
) -> u16 {
    pressed_bit(a, Button::A)
        | pressed_bit(b, Button::B)
        | pressed_bit(x, Button::X)
        | pressed_bit(y, Button::Y)
        | pressed_bit(up, Button::UP)
        | pressed_bit(down, Button::DOWN)
        | pressed_bit(left, Button::LEFT)
        | pressed_bit(right, Button::RIGHT)
        | pressed_bit(l1, Button::L1)
        | pressed_bit(l2, Button::L2)
        | pressed_bit(r1, Button::R1)
        | pressed_bit(r2, Button::R2)
        | pressed_bit(l3, Button::L3)
        | pressed_bit(r3, Button::R3)
        | pressed_bit(select, Button::SELECT)
        | pressed_bit(start, Button::START)
}

/// The buttons field of the report for a scan of the buttons: the bit of each
/// pressed HID button. The back button has no HID bit.
pub open spec fn button_mask_of(b: ButtonState) -> u16 {
    flags_mask(
        b.a,
        b.b,
        b.x,
        b.y,
        b.up,
        b.down,
        b.left,
        b.right,
        b.l1,
        b.l2,
        b.r1,
        b.r2,
        b.l3,
        b.r3,
        b.select,
        b.start,
    )
}

/// The `k`-th of sixteen flags.
#[verifier::opaque]
pub open spec fn nth_of_sixteen(
    k: u16,
    a: bool,
    b: bool,
    x: bool,
    y: bool,
    up: bool,
    down: bool,
    left: bool,
    right: bool,
    l1: bool,
    l2: bool,
    r1: bool,
    r2: bool,
    l3: bool,
    r3: bool,
    select: bool,
    start: bool,
) -> bool {
    if k == 0 {
        a
    } else if k == 1 {
        b
    } else if k == 2 {
        x
    } else if k == 3 {
        y
    } else if k == 4 {
        up
    } else if k == 5 {
        down
    } else if k == 6 {
        left
    } else if k == 7 {
        right
    } else if k == 8 {
        l1
    } else if k == 9 {
        l2
    } else if k == 10 {
        r1
    } else if k == 11 {
        r2
    } else if k == 12 {
        l3
    } else if k == 13 {
        r3
    } else if k == 14 {
        select
    } else if k == 15 {
        start
    } else {
        false
    }
}

proof fn lemma_or_zero(x: u16)
    ensures
        x | 0u16 == x,
{
    assert(x | 0u16 == x) by (bit_vector);
}

proof fn lemma_zero_or(x: u16)
    ensures
        0u16 | x == x,
{
    assert(0u16 | x == x) by (bit_vector);
}

/// Adds the bits of `mask` to `btn` when the button is pressed.
fn with_button(btn: u16, pressed: bool, mask: u16) -> (r: u16)
    ensures
        r == btn | pressed_bit(pressed, mask),
{
    reveal(pressed_bit);
    if pressed {
        btn | mask
    } else {
        proof {
            lemma_or_zero(btn);
        }
        btn
    }
}

/// Packs the pressed buttons into the sixteen report bits.
pub fn button_mask(b: &ButtonState) -> (mask: u16)
    ensures
        mask == button_mask_of(*b),
{
    let mut btn: u16 = 0;
    btn = with_button(btn, b.a, Button::A);
    btn = with_button(btn, b.b, Button::B);
    btn = with_button(btn, b.x, Button::X);
    btn = with_button(btn, b.y, Button::Y);
    btn = with_button(btn, b.up, Button::UP);
    btn = with_button(btn, b.down, Button::DOWN);
    btn = with_button(btn, b.left, Button::LEFT);
    btn = with_button(btn, b.right, Button::RIGHT);
    btn = with_button(btn, b.l1, Button::L1);
    btn = with_button(btn, b.l2, Button::L2);
    btn = with_button(btn, b.r1, Button::R1);
    btn = with_button(btn, b.r2, Button::R2);
    btn = with_button(btn, b.l3, Button::L3);
    btn = with_button(btn, b.r3, Button::R3);
    btn = with_button(btn, b.select, Button::SELECT);
    btn = with_button(btn, b.start, Button::START);
    proof {
        reveal(pressed_bit);
        reveal(flags_mask);
        lemma_zero_or(pressed_bit(b.a, Button::A));
    }
    btn
}

/// Bit `k` of the buttons field is set exactly when the `k`-th of the
/// sixteen HID buttons is pressed, for each of the sixteen bits.
pub proof fn lemma_button_mask_bits(
    a: bool,
    b: bool,
    x: bool,
    y: bool,
    up: bool,
    down: bool,
    left: bool,
    right: bool,
    l1: bool,
    l2: bool,
    r1: bool,
    r2: bool,
    l3: bool,
    r3: bool,
    select: bool,
    start: bool,
    k: u16,
)
    requires
        k < 16,
    ensures
        ((flags_mask(a, b, x, y, up, down, left, right, l1, l2, r1, r2, l3, r3, select, start) >> k) & 1u16 == 1u16) == nth_of_sixteen(
            k,
            a, b, x, y, up, down, left, right, l1, l2, r1, r2, l3, r3, select, start,
        ),
{
    assert(((flags_mask(a, b, x, y, up, down, left, right, l1, l2, r1, r2, l3, r3, select, start) >> k) & 1u16 == 1u16) == nth_of_sixteen(
        k,
        a, b, x, y, up, down, left, right, l1, l2, r1, r2, l3, r3, select, start,
    )) by (bit_vector)
        requires
            k < 16,
    ;
}

proof fn lemma_flags_mask_fields(
    a: bool,
    b: bool,
    x: bool,
    y: bool,
    up: bool,
    down: bool,
    left: bool,
    right: bool,
    l1: bool,
    l2: bool,
    r1: bool,
    r2: bool,
    l3: bool,
    r3: bool,
    select: bool,
    start: bool,
)
    ensures
        (flags_mask(a, b, x, y, up, down, left, right, l1, l2, r1, r2, l3, r3, select, start) & 0x1u16 != 0) == a,
        (flags_mask(a, b, x, y, up, down, left, right, l1, l2, r1, r2, l3, r3, select, start) & 0x2u16 != 0) == b,
        (flags_mask(a, b, x, y, up, down, left, right, l1, l2, r1, r2, l3, r3, select, start) & 0x4u16 != 0) == x,
        (flags_mask(a, b, x, y, up, down, left, right, l1, l2, r1, r2, l3, r3, select, start) & 0x8u16 != 0) == y,
        (flags_mask(a, b, x, y, up, down, left, right, l1, l2, r1, r2, l3, r3, select, start) & 0x10u16 != 0) == up,
        (flags_mask(a, b, x, y, up, down, left, right, l1, l2, r1, r2, l3, r3, select, start) & 0x20u16 != 0) == down,
        (flags_mask(a, b, x, y, up, down, left, right, l1, l2, r1, r2, l3, r3, select, start) & 0x40u16 != 0) == left,
        (flags_mask(a, b, x, y, up, down, left, right, l1, l2, r1, r2, l3, r3, select, start) & 0x80u16 != 0) == right,
        (flags_mask(a, b, x, y, up, down, left, right, l1, l2, r1, r2, l3, r3, select, start) & 0x100u16 != 0) == l1,
        (flags_mask(a, b, x, y, up, down, left, right, l1, l2, r1, r2, l3, r3, select, start) & 0x200u16 != 0) == l2,
        (flags_mask(a, b, x, y, up, down, left, right, l1, l2, r1, r2, l3, r3, select, start) & 0x400u16 != 0) == r1,
        (flags_mask(a, b, x, y, up, down, left, right, l1, l2, r1, r2, l3, r3, select, start) & 0x800u16 != 0) == r2,
        (flags_mask(a, b, x, y, up, down, left, right, l1, l2, r1, r2, l3, r3, select, start) & 0x1000u16 != 0) == l3,
        (flags_mask(a, b, x, y, up, down, left, right, l1, l2, r1, r2, l3, r3, select, start) & 0x2000u16 != 0) == r3,
        (flags_mask(a, b, x, y, up, down, left, right, l1, l2, r1, r2, l3, r3, select, start) & 0x4000u16 != 0) == select,
        (flags_mask(a, b, x, y, up, down, left, right, l1, l2, r1, r2, l3, r3, select, start) & 0x8000u16 != 0) == start,
{
    reveal(flags_mask);
    reveal(pressed_bit);
    assert((flags_mask(a, b, x, y, up, down, left, right, l1, l2, r1, r2, l3, r3, select, start) & 0x1u16 != 0) == a) by (bit_vector);
    assert((flags_mask(a, b, x, y, up, down, left, right, l1, l2, r1, r2, l3, r3, select, start) & 0x2u16 != 0) == b) by (bit_vector);
    assert((flags_mask(a, b, x, y, up, down, left, right, l1, l2, r1, r2, l3, r3, select, start) & 0x4u16 != 0) == x) by (bit_vector);
    assert((flags_mask(a, b, x, y, up, down, left, right, l1, l2, r1, r2, l3, r3, select, start) & 0x8u16 != 0) == y) by (bit_vector);
    assert((flags_mask(a, b, x, y, up, down, left, right, l1, l2, r1, r2, l3, r3, select, start) & 0x10u16 != 0) == up) by (bit_vector);
    assert((flags_mask(a, b, x, y, up, down, left, right, l1, l2, r1, r2, l3, r3, select, start) & 0x20u16 != 0) == down) by (bit_vector);
    assert((flags_mask(a, b, x, y, up, down, left, right, l1, l2, r1, r2, l3, r3, select, start) & 0x40u16 != 0) == left) by (bit_vector);
    assert((flags_mask(a, b, x, y, up, down, left, right, l1, l2, r1, r2, l3, r3, select, start) & 0x80u16 != 0) == right) by (bit_vector);
    assert((flags_mask(a, b, x, y, up, down, left, right, l1, l2, r1, r2, l3, r3, select, start) & 0x100u16 != 0) == l1) by (bit_vector);
    assert((flags_mask(a, b, x, y, up, down, left, right, l1, l2, r1, r2, l3, r3, select, start) & 0x200u16 != 0) == l2) by (bit_vector);
    assert((flags_mask(a, b, x, y, up, down, left, right, l1, l2, r1, r2, l3, r3, select, start) & 0x400u16 != 0) == r1) by (bit_vector);
    assert((flags_mask(a, b, x, y, up, down, left, right, l1, l2, r1, r2, l3, r3, select, start) & 0x800u16 != 0) == r2) by (bit_vector);
    assert((flags_mask(a, b, x, y, up, down, left, right, l1, l2, r1, r2, l3, r3, select, start) & 0x1000u16 != 0) == l3) by (bit_vector);
    assert((flags_mask(a, b, x, y, up, down, left, right, l1, l2, r1, r2, l3, r3, select, start) & 0x2000u16 != 0) == r3) by (bit_vector);
    assert((flags_mask(a, b, x, y, up, down, left, right, l1, l2, r1, r2, l3, r3, select, start) & 0x4000u16 != 0) == select) by (bit_vector);
    assert((flags_mask(a, b, x, y, up, down, left, right, l1, l2, r1, r2, l3, r3, select, start) & 0x8000u16 != 0) == start) by (bit_vector);
}

/// Each HID bit of the buttons field is set exactly when the button of the
/// same name is pressed: A is bit 0, B bit 1, X bit 2, Y bit 3, up, down, left
/// and right bits 4 to 7, L1, L2, R1, R2 bits 8 to 11, L3, R3 bits 12 and 13,
/// select bit 14 and start bit 15.
pub proof fn lemma_button_mask_fields(b: ButtonState)
    ensures
        (button_mask_of(b) & 0x1u16 != 0) == b.a,
        (button_mask_of(b) & 0x2u16 != 0) == b.b,
        (button_mask_of(b) & 0x4u16 != 0) == b.x,
        (button_mask_of(b) & 0x8u16 != 0) == b.y,
        (button_mask_of(b) & 0x10u16 != 0) == b.up,
        (button_mask_of(b) & 0x20u16 != 0) == b.down,
        (button_mask_of(b) & 0x40u16 != 0) == b.left,
        (button_mask_of(b) & 0x80u16 != 0) == b.right,
        (button_mask_of(b) & 0x100u16 != 0) == b.l1,
        (button_mask_of(b) & 0x200u16 != 0) == b.l2,
        (button_mask_of(b) & 0x400u16 != 0) == b.r1,
        (button_mask_of(b) & 0x800u16 != 0) == b.r2,
        (button_mask_of(b) & 0x1000u16 != 0) == b.l3,
        (button_mask_of(b) & 0x2000u16 != 0) == b.r3,
        (button_mask_of(b) & 0x4000u16 != 0) == b.select,
        (button_mask_of(b) & 0x8000u16 != 0) == b.start,
{
    lemma_flags_mask_fields(
        b.a,
        b.b,
        b.x,
        b.y,
        b.up,
        b.down,
        b.left,
        b.right,
        b.l1,
        b.l2,
        b.r1,
        b.r2,
        b.l3,
        b.r3,
        b.select,
        b.start,
    );
}

/// Hat switch (D-pad) directions of the HID gamepad.
#[derive(Debug, Clone, Copy, PartialEq, Eq, Structural)]
pub enum DPad {
    North,
    NorthEast,
    East,
    SouthEast,
    South,
    SouthWest,
    West,
    NorthWest,
    Centered,
}

/// The hat switch value of a direction: clockwise from north at 0, and 8 for
/// the centred (null) state.
pub open spec fn dpad_value(d: DPad) -> u8 {
    match d {
        DPad::North => 0,
        DPad::NorthEast => 1,
        DPad::East => 2,
        DPad::SouthEast => 3,
        DPad::South => 4,
        DPad::SouthWest => 5,
        DPad::West => 6,
        DPad::NorthWest => 7,
        DPad::Centered => 8,
    }
}

impl DPad {
    /// The value this direction has in a report.
    pub fn value(&self) -> (v: u8)
        ensures
            v == dpad_value(*self),
    {
        match self {
            DPad::North => 0,
            DPad::NorthEast => 1,
            DPad::East => 2,
            DPad::SouthEast => 3,
            DPad::South => 4,
            DPad::SouthWest => 5,
            DPad::West => 6,
            DPad::NorthWest => 7,
            DPad::Centered => 8,
        }
    }
}

/// The hat values run clockwise from north, 0 to 7, and the centred state is
/// 8, the null value outside that range.
pub proof fn lemma_dpad_values(i: int)
    requires
        0 <= i < 9,
    ensures
        dpad_value(
            seq![
                DPad::North,
                DPad::NorthEast,
                DPad::East,
                DPad::SouthEast,
                DPad::South,
                DPad::SouthWest,
                DPad::West,
                DPad::NorthWest,
                DPad::Centered,
            ][i],
        ) == i,
{
}

/// One input report of the gamepad: sixteen button bits and the two sticks.
#[derive(Debug, Clone, Copy, PartialEq, Eq, Structural)]
pub struct GamepadReport {
    pub buttons: u16,
    pub lx: i8,
    pub ly: i8,
    pub rx: i8,
    pub ry: i8,
}

/// The byte that carries a signed axis value (two's complement).
pub open spec fn axis_byte(v: i8) -> int {
    if v < 0 {
        v + 256
    } else {
        v as int
    }
}

/// Number of bytes of a report on the wire.
pub const REPORT_LEN: usize = 6;

/// The bytes of a report on the wire: the buttons in little-endian order,
/// then lx, ly, rx, ry, one byte each.
pub open spec fn report_bytes(r: GamepadReport) -> Seq<u8> {
    seq![
        (r.buttons % 256) as u8,
        (r.buttons / 256) as u8,
        axis_byte(r.lx) as u8,
        axis_byte(r.ly) as u8,
        axis_byte(r.rx) as u8,
        axis_byte(r.ry) as u8,
    ]
}

fn axis_to_byte(v: i8) -> (b: u8)
    ensures
        b as int == axis_byte(v),
{
    if v < 0 {
        (v as i16 + 256) as u8
    } else {
        v as u8
    }
}

impl GamepadReport {
    /// A report with no button pressed and both sticks centred.
    pub fn new() -> (r: Self)
        ensures
            r.buttons == 0,
            r.lx == 0,
            r.ly == 0,
            r.rx == 0,
            r.ry == 0,
    {
        GamepadReport { buttons: 0, lx: 0, ly: 0, rx: 0, ry: 0 }
    }

    /// The report for one scan of the buttons and both sticks.
    pub fn from_inputs(b: &ButtonState, left: &JoystickState, right: &JoystickState) -> (r: Self)
        ensures
            r.buttons == button_mask_of(*b),
            r.lx == left.x,
            r.ly == left.y,
            r.rx == right.x,
            r.ry == right.y,
    {
        GamepadReport { buttons: button_mask(b), lx: left.x, ly: left.y, rx: right.x, ry: right.y }
    }

    /// Presses the buttons whose bits are set in `button`.
    pub fn press(&mut self, button: u16)
        ensures
            final(self).buttons == old(self).buttons | button,
            final(self).lx == old(self).lx,
            final(self).ly == old(self).ly,
            final(self).rx == old(self).rx,
            final(self).ry == old(self).ry,
    {
        self.buttons = self.buttons | button;
    }

    /// Releases the buttons whose bits are set in `button`.
    pub fn release(&mut self, button: u16)
        ensures
            final(self).buttons == old(self).buttons & !button,
            final(self).lx == old(self).lx,
            final(self).ly == old(self).ly,
            final(self).rx == old(self).rx,
            final(self).ry == old(self).ry,
    {
        self.buttons = self.buttons & !button;
    }

    /// Releases every button; the sticks stay where they are.
    pub fn release_all(&mut self)
        ensures
            final(self).buttons == 0,
            final(self).lx == old(self).lx,
            final(self).ly == old(self).ly,
            final(self).rx == old(self).rx,
            final(self).ry == old(self).ry,
    {
        self.buttons = 0;
    }

    /// Moves the left stick; buttons and the right stick stay.
    pub fn set_left_stick(&mut self, x: i8, y: i8)
        ensures
            final(self).buttons == old(self).buttons,
            final(self).lx == x,
            final(self).ly == y,
            final(self).rx == old(self).rx,
            final(self).ry == old(self).ry,
    {
        self.lx = x;
        self.ly = y;
    }

    /// Moves the right stick; buttons and the left stick stay.
    pub fn set_right_stick(&mut self, x: i8, y: i8)
        ensures
            final(self).buttons == old(self).buttons,
            final(self).lx == old(self).lx,
            final(self).ly == old(self).ly,
            final(self).rx == x,
            final(self).ry == y,
    {
        self.rx = x;
        self.ry = y;
    }

    /// The report as it is sent to the host.
    pub fn to_bytes(&self) -> (bytes: [u8; 6])
        ensures
            bytes@ == report_bytes(*self),
    {
        let lo: u8 = (self.buttons % 256) as u8;
        let hi: u8 = (self.buttons / 256) as u8;
        let bytes: [u8; 6] = [
            lo,
            hi,
            axis_to_byte(self.lx),
            axis_to_byte(self.ly),
            axis_to_byte(self.rx),
            axis_to_byte(self.ry),
        ];
        assert(bytes@ =~= report_bytes(*self));
        bytes
    }
}

/// Releasing buttons right after pressing them clears exactly their bits, and
/// restores the previous buttons when none of them was pressed before.
pub proof fn lemma_press_then_release(buttons: u16, button: u16)
    ensures
        (buttons | button) & !button == buttons & !button,
        buttons & button == 0 ==> (buttons | button) & !button == buttons,
{
    assert((buttons | button) & !button == buttons & !button) by (bit_vector);
    assert(buttons & button == 0 ==> (buttons | button) & !button == buttons) by (bit_vector);
}

/// Pressing or releasing the same buttons twice is the same as doing it once,
/// and releasing buttons that are not pressed changes nothing.
pub proof fn lemma_press_release_idempotent(buttons: u16, button: u16)
    ensures
        (buttons | button) | button == buttons | button,
        (buttons & !button) & !button == buttons & !button,
        buttons & button == 0 ==> buttons & !button == buttons,
{
    assert((buttons | button) | button == buttons | button) by (bit_vector);
    assert((buttons & !button) & !button == buttons & !button) by (bit_vector);
    assert(buttons & button == 0 ==> buttons & !button == buttons) by (bit_vector);
}

/// Pressing sets the given bits and keeps the others; releasing clears the
/// given bits and keeps the others.
pub proof fn lemma_press_release_bits(buttons: u16, button: u16, k: u16)
    requires
        k < 16,
    ensures
        ((buttons | button) >> k) & 1 == if (button >> k) & 1 == 1 { 1 } else { (buttons >> k) & 1 },
        ((buttons & !button) >> k) & 1 == if (button >> k) & 1 == 1 { 0 } else { (buttons >> k) & 1 },
{
    assert(((buttons | button) >> k) & 1 == if (button >> k) & 1 == 1 { 1 } else { (buttons >> k) & 1 }) by (bit_vector)
        requires
            k < 16,
    ;
    assert(((buttons & !button) >> k) & 1 == if (button >> k) & 1 == 1 { 0 } else { (buttons >> k) & 1 }) by (bit_vector)
        requires
            k < 16,
    ;
}

/// The wire bytes of a report: the buttons as a little-endian 16-bit number,
/// then each axis as the two's-complement byte of its value.
pub proof fn lemma_report_bytes_layout(r: GamepadReport)
    ensures
        report_bytes(r).len() == 6,
        report_bytes(r)[0] as int + 256 * report_bytes(r)[1] as int == r.buttons as int,
        report_bytes(r)[2] as int == (r.lx as int) % 256,
        report_bytes(r)[3] as int == (r.ly as int) % 256,
        report_bytes(r)[4] as int == (r.rx as int) % 256,
        report_bytes(r)[5] as int == (r.ry as int) % 256,
{
}

/// Distinct reports are sent as distinct bytes: the wire format loses
/// nothing.
pub proof fn lemma_report_bytes_injective(r1: GamepadReport, r2: GamepadReport)
    ensures
        report_bytes(r1) == report_bytes(r2) ==> r1 == r2,
{
    if report_bytes(r1) == report_bytes(r2) {
        assert(report_bytes(r1)[0] == report_bytes(r2)[0]);
        assert(report_bytes(r1)[1] == report_bytes(r2)[1]);
        assert(report_bytes(r1)[2] == report_bytes(r2)[2]);
        assert(report_bytes(r1)[3] == report_bytes(r2)[3]);
        assert(report_bytes(r1)[4] == report_bytes(r2)[4]);
        assert(report_bytes(r1)[5] == report_bytes(r2)[5]);
    }
}

} // verus!
