use vstd::prelude::*;

verus! {

/// Rows of the button matrix.
pub const ROWS: usize = 4;

/// Columns of the button matrix.
pub const COLS: usize = 4;

/// Which buttons are held down. The matrix is wired as
///
/// ```text
///         COL0    COL1    COL2    COL3
/// ROW0  [ X    ][ Y    ][ A    ][ B    ]
/// ROW1  [ UP   ][ DOWN ][ LEFT ][ RIGHT]
/// ROW2  [ L1   ][ L2   ][ R1   ][ R2   ]
/// ROW3  [ L3   ][ R3   ][ START][ SEL  ]
/// ```
///
/// and `back` has a pin of its own.
#[derive(Debug, Clone, Copy, PartialEq, Eq, Structural)]
pub struct ButtonState {
    pub x: bool,
    pub y: bool,
    pub a: bool,
    pub b: bool,
    pub up: bool,
    pub down: bool,
    pub left: bool,
    pub right: bool,
    pub l1: bool,
    pub l2: bool,
    pub r1: bool,
    pub r2: bool,
    pub l3: bool,
    pub r3: bool,
    pub start: bool,
    pub select: bool,
    pub back: bool,
}

/// No button is pressed.
pub open spec fn all_released(s: ButtonState) -> bool {
    &&& !s.x && !s.y && !s.a && !s.b
    &&& !s.up && !s.down && !s.left && !s.right
    &&& !s.l1 && !s.l2 && !s.r1 && !s.r2
    &&& !s.l3 && !s.r3 && !s.start && !s.select
    &&& !s.back
}

impl Default for ButtonState {
    fn default() -> (s: Self)
        ensures
            all_released(s),
    {
        ButtonState {
            x: false,
            y: false,
            a: false,
            b: false,
            up: false,
            down: false,
            left: false,
            right: false,
            l1: false,
            l2: false,
            r1: false,
            r2: false,
            l3: false,
            r3: false,
            start: false,
            select: false,
            back: false,
        }
    }
}

impl ButtonState {
    /// Decodes one scan of the matrix: `pressed[row][col]` tells whether the
    /// column read low while the row was driven low; `back` whether the back
    /// pin read low.
    pub fn from_matrix(pressed: &[[bool; 4]; 4], back: bool) -> (s: Self)
        ensures
            s.x == pressed[0][0],
            s.y == pressed[0][1],
            s.a == pressed[0][2],
            s.b == pressed[0][3],
            s.up == pressed[1][0],
            s.down == pressed[1][1],
            s.left == pressed[1][2],
            s.right == pressed[1][3],
            s.l1 == pressed[2][0],
            s.l2 == pressed[2][1],
            s.r1 == pressed[2][2],
            s.r2 == pressed[2][3],
            s.l3 == pressed[3][0],
            s.r3 == pressed[3][1],
            s.start == pressed[3][2],
            s.select == pressed[3][3],
            s.back == back,
    {
        ButtonState {
            x: pressed[0][0],
            y: pressed[0][1],
            a: pressed[0][2],
            b: pressed[0][3],
            up: pressed[1][0],
            down: pressed[1][1],
            left: pressed[1][2],
            right: pressed[1][3],
            l1: pressed[2][0],
            l2: pressed[2][1],
            r1: pressed[2][2],
            r2: pressed[2][3],
            l3: pressed[3][0],
            r3: pressed[3][1],
            start: pressed[3][2],
            select: pressed[3][3],
            back: back,
        }
    }

    /// The menus and the debug screen go back when B is held.
    pub fn back_requested(&self) -> (leave: bool)
        ensures
            leave == self.b,
    {
        self.b
    }
}

} // verus!
