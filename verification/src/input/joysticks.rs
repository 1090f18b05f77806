use vstd::prelude::*;

verus! {

/// Lowest raw ADC reading of a stick axis (tuned on the hardware).
pub const MIN: i32 = 0;

/// Highest raw ADC reading of a stick axis (tuned on the hardware).
pub const MAX: i32 = 2450;

/// Raw ADC reading of a stick axis at rest.
pub const CENTER: i32 = 1075;

/// Readings within this distance of `CENTER` count as centred.
pub const DEADZONE: i32 = 100;

/// Reading assumed for an axis whose ADC conversion failed.
pub const FALLBACK_READING: u16 = 2048;

/// Clamps to the HID axis range `-127..=127`.
pub open spec fn clamp_axis(v: int) -> int {
    if v < -127 {
        -127
    } else if v > 127 {
        127
    } else {
        v
    }
}

/// The axis value of a raw reading: zero inside the dead zone, otherwise the
/// offset from `CENTER` scaled linearly (each side on its own span, truncating
/// towards zero) to 127 and clamped to `-127..=127`.
pub open spec fn axis_of(raw: int) -> int {
    let d = raw - CENTER;
    if -DEADZONE <= d && d <= DEADZONE {
        0
    } else if d > 0 {
        clamp_axis(d * 127 / (MAX - CENTER))
    } else {
        clamp_axis(-((-d) * 127 / (CENTER - MIN)))
    }
}

/// Maps a raw ADC reading of one stick axis to a HID axis value.
pub fn raw_to_axis(raw: u16) -> (axis: i8)
    ensures
        axis as int == axis_of(raw as int),
{
    let raw: i32 = raw as i32;
    let d: i32 = raw - CENTER;
    if -DEADZONE <= d && d <= DEADZONE {
        return 0;
    }
    let scaled: i32 = if raw > CENTER {
        assert(0 <= d * 127 <= 65535 * 127) by (nonlinear_arith)
            requires
                0 < d <= 65535,
        ;
        (raw - CENTER) * 127 / (MAX - CENTER)
    } else {
        assert(0 <= (-d) * 127 <= 1075 * 127) by (nonlinear_arith)
            requires
                0 < -d <= 1075,
        ;
        (raw - CENTER) * 127 / (CENTER - MIN)
    };
    if scaled < -127 {
        -127
    } else if scaled > 127 {
        127
    } else {
        scaled as i8
    }
}

/// The reading used for an axis: the converted value, or `FALLBACK_READING`
/// when the conversion failed.
pub open spec fn reading_or_fallback(reading: Option<u16>) -> int {
    match reading {
        Some(v) => v as int,
        None => FALLBACK_READING as int,
    }
}

/// Position of one analog stick, each axis in HID units.
#[derive(Debug, Clone, Copy, PartialEq, Eq, Structural)]
pub struct JoystickState {
    pub x: i8,
    pub y: i8,
}

impl Default for JoystickState {
    fn default() -> (s: Self)
        ensures
            s.x == 0,
            s.y == 0,
    {
        JoystickState { x: 0, y: 0 }
    }
}

impl JoystickState {
    /// Builds the state of a stick from the readings of its two axes; an axis
    /// whose reading failed reads as `FALLBACK_READING`.
    pub fn from_readings(x: Option<u16>, y: Option<u16>) -> (s: Self)
        ensures
            s.x as int == axis_of(reading_or_fallback(x)),
            s.y as int == axis_of(reading_or_fallback(y)),
    {
        let raw_x: u16 = match x {
            Some(v) => v,
            None => FALLBACK_READING,
        };
        let raw_y: u16 = match y {
            Some(v) => v,
            None => FALLBACK_READING,
        };
        JoystickState { x: raw_to_axis(raw_x), y: raw_to_axis(raw_y) }
    }

    pub fn is_left(&self) -> (b: bool)
        ensures
            b == (self.x < -50),
    {
        self.x < -50
    }

    pub fn is_right(&self) -> (b: bool)
        ensures
            b == (self.x > 50),
    {
        self.x > 50
    }

    pub fn is_up(&self) -> (b: bool)
        ensures
            b == (self.y < -50),
    {
        self.y < -50
    }

    pub fn is_down(&self) -> (b: bool)
        ensures
            b == (self.y > 50),
    {
        self.y > 50
    }

    /// Both axes lie strictly within 20 of the centre. The absolute value of
    /// `i8::MIN` overflows; the x axis is always measured, the y axis only
    /// when x is within 20 of the centre, so x may never be `i8::MIN` and y
    /// may not be `i8::MIN` when x is that close.
    pub fn is_centered(&self) -> (b: bool)
        requires
            self.x != i8::MIN,
            -20 < self.x < 20 ==> self.y != i8::MIN,
        ensures
            b == (-20 < self.x < 20 && -20 < self.y < 20),
    {
        -20 < self.x && self.x < 20 && -20 < self.y && self.y < 20
    }
}

/// Every axis value lies in the HID logical range `-127..=127`.
pub proof fn lemma_axis_in_hid_range(raw: int)
    ensures
        -127 <= axis_of(raw) <= 127,
{
}

/// Readings inside the dead zone give zero, readings outside it never do, and
/// the sign of the axis is the side of `CENTER` that the reading lies on.
pub proof fn lemma_axis_dead_zone_and_sign(raw: int)
    ensures
        axis_of(raw) == 0 <==> CENTER - DEADZONE <= raw <= CENTER + DEADZONE,
        axis_of(raw) > 0 <==> raw > CENTER + DEADZONE,
        axis_of(raw) < 0 <==> raw < CENTER - DEADZONE,
{
    let d = raw - CENTER;
    if d > DEADZONE {
        assert(d * 127 / (MAX - CENTER) >= 1) by (nonlinear_arith)
            requires
                d > 100,
        ;
    } else if d < -DEADZONE {
        assert((-d) * 127 / (CENTER - MIN) >= 1) by (nonlinear_arith)
            requires
                -d > 100,
        ;
    }
}

/// A full deflection reaches full scale on either side, whatever the
/// asymmetry of the centre.
pub proof fn lemma_axis_full_scale(raw: int)
    ensures
        raw >= MAX ==> axis_of(raw) == 127,
        raw <= MIN ==> axis_of(raw) == -127,
{
    let d = raw - CENTER;
    if raw >= MAX {
        assert(d * 127 / (MAX - CENTER) >= 127) by (nonlinear_arith)
            requires
                d >= 1375,
        ;
    }
    if raw <= MIN {
        assert((-d) * 127 / (CENTER - MIN) >= 127) by (nonlinear_arith)
            requires
                -d >= 1075,
        ;
    }
}

/// Between the dead zone and the end of its span, each side is scaled
/// linearly on its own span (truncating towards zero, no clamping needed): the
/// low side maps the 1075 counts below the centre onto 0..-127, the high side
/// maps the 1375 counts above the centre onto 0..127.
pub proof fn lemma_axis_linear_on_each_side(raw: int)
    ensures
        0 <= raw < 975 ==> axis_of(raw) == -((1075 - raw) * 127 / 1075),
        1175 < raw <= 2450 ==> axis_of(raw) == (raw - 1075) * 127 / 1375,
{
    if 0 <= raw < 975 {
        assert(0 <= (1075 - raw) * 127 / 1075 <= 127) by (nonlinear_arith)
            requires
                100 < 1075 - raw <= 1075,
        ;
    }
    if 1175 < raw <= 2450 {
        assert(0 <= (raw - 1075) * 127 / 1375 <= 127) by (nonlinear_arith)
            requires
                100 < raw - 1075 <= 1375,
        ;
    }
}

/// A reading that came through is used as it is; a failed one reads as 2048.
pub proof fn lemma_reading_fallback(v: u16)
    ensures
        reading_or_fallback(Some(v)) == v as int,
        reading_or_fallback(None) == 2048,
{
}

/// Moving a stick further along an axis never lowers the axis value.
pub proof fn lemma_axis_monotone(a: int, b: int)
    requires
        a <= b,
    ensures
        axis_of(a) <= axis_of(b),
{
    let da = a - CENTER;
    let db = b - CENTER;
    lemma_axis_dead_zone_and_sign(a);
    lemma_axis_dead_zone_and_sign(b);
    if da > DEADZONE && db > DEADZONE {
        assert(da * 127 / 1375 <= db * 127 / 1375) by (nonlinear_arith)
            requires
                0 < da <= db,
        ;
    } else if da < -DEADZONE && db < -DEADZONE {
        assert((-db) * 127 / 1075 <= (-da) * 127 / 1075) by (nonlinear_arith)
            requires
                0 < -db <= -da,
        ;
    }
}

/// A centred stick points in no direction, and no stick points both ways
/// along one axis.
pub proof fn lemma_directions_exclusive(s: JoystickState)
    ensures
        (-20 < s.x < 20 && -20 < s.y < 20) ==> !(s.x < -50) && !(s.x > 50) && !(s.y < -50) && !(
        s.y > 50),
        !(s.x < -50 && s.x > 50),
        !(s.y < -50 && s.y > 50),
{
}

} // verus!
