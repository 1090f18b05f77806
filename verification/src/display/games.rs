use vstd::prelude::*;
use crate::input::buttons::{ButtonState, all_released};

verus! {

/// Number of entries in the games menu.
pub const GAMES_MENU_ROWS: i32 = 2;

/// The games that the games menu starts.
#[derive(Debug, Clone, Copy, PartialEq, Eq, Structural)]
pub enum Game {
    Debug,
    Snake,
}

/// What the games menu does after one scan of the buttons: start a game (it
/// runs until it returns), and then leave the menu or not.
#[derive(Debug, Clone, Copy, PartialEq, Eq, Structural)]
pub struct GamesMenuAction {
    pub launch: Option<Game>,
    pub leave: bool,
}

/// The selection after one scan: a change of up (press or release) moves it
/// up while it is below the top, then a change of down moves it down while it
/// is above the bottom.
pub open spec fn games_menu_moved(option: int, prev: ButtonState, now: ButtonState) -> int {
    let raised = if now.up != prev.up && option > 0 {
        option - 1
    } else {
        option
    };
    if now.down != prev.down && raised < GAMES_MENU_ROWS - 1 {
        raised + 1
    } else {
        raised
    }
}

/// The game at a selection; none out of range.
pub open spec fn games_menu_game(option: int) -> Option<Game> {
    if option == 0 {
        Some(Game::Debug)
    } else if option == 1 {
        Some(Game::Snake)
    } else {
        None
    }
}

/// Vertical position of the selection arrow; none is drawn out of range.
pub open spec fn games_menu_arrow_y(option: int) -> Option<i32> {
    if option == 0 {
        Some(20i32)
    } else if option == 1 {
        Some(40i32)
    } else {
        None
    }
}

/// State of the games menu between two scans of the buttons.
pub struct GamesMenu {
    pub option: i32,
    pub prev: ButtonState,
}

impl GamesMenu {
    /// The menu as it opens: first game selected, no button seen yet.
    pub fn new() -> (m: Self)
        ensures
            m.option == 0,
            all_released(m.prev),
    {
        GamesMenu { option: 0, prev: ButtonState::default() }
    }

    /// Takes one scan of the buttons: moves the selection, starts the
    /// selected game while X is held, and leaves while B is held. The
    /// previous scan is replaced unless the menu is left.
    pub fn step(&mut self, now: ButtonState) -> (action: GamesMenuAction)
        ensures
            final(self).option == games_menu_moved(old(self).option as int, old(self).prev, now),
            action.launch == (if now.x {
                games_menu_game(final(self).option as int)
            } else {
                None
            }),
            action.leave == now.b,
            final(self).prev == (if now.b {
                old(self).prev
            } else {
                now
            }),
    {
        if now.up != self.prev.up {
            if self.option > 0 {
                self.option = self.option - 1;
            }
        }
        if now.down != self.prev.down {
            if self.option < GAMES_MENU_ROWS - 1 {
                self.option = self.option + 1;
            }
        }
        let launch = if now.x {
            match self.option {
                0 => Some(Game::Debug),
                1 => Some(Game::Snake),
                _ => None,
            }
        } else {
            None
        };
        if now.b {
            return GamesMenuAction { launch, leave: true };
        }
        self.prev = now;
        GamesMenuAction { launch, leave: false }
    }

    /// Where the selection arrow is drawn, if anywhere.
    pub fn arrow_y(&self) -> (y: Option<i32>)
        ensures
            y == games_menu_arrow_y(self.option as int),
    {
        if self.option == 0 {
            Some(20)
        } else if self.option == 1 {
            Some(40)
        } else {
            None
        }
    }
}

/// The selection never leaves the menu.
pub proof fn lemma_games_menu_stays_in_range(option: int, prev: ButtonState, now: ButtonState)
    requires
        0 <= option < GAMES_MENU_ROWS,
    ensures
        0 <= games_menu_moved(option, prev, now) < GAMES_MENU_ROWS,
{
}

/// Holding a direction moves the selection once: a scan equal to the
/// previous one keeps it.
pub proof fn lemma_games_menu_held_keeps(option: int, now: ButtonState)
    ensures
        games_menu_moved(option, now, now) == option,
{
}

/// Only up and down move the selection: scans that agree on up and down,
/// after previous scans that agree on up and down, lead to the same
/// selection, whatever the other buttons do; and a scan in which up and down
/// did not change keeps the selection.
pub proof fn lemma_games_menu_moves_only_on_up_down(
    option: int,
    prev1: ButtonState,
    now1: ButtonState,
    prev2: ButtonState,
    now2: ButtonState,
)
    requires
        prev1.up == prev2.up,
        prev1.down == prev2.down,
        now1.up == now2.up,
        now1.down == now2.down,
    ensures
        games_menu_moved(option, prev1, now1) == games_menu_moved(option, prev2, now2),
        now1.up == prev1.up && now1.down == prev1.down ==> games_menu_moved(option, prev1, now1)
            == option,
{
}

/// A change of up alone moves one entry up, stopping at the top; a change of
/// down alone moves one entry down, stopping at the bottom.
pub proof fn lemma_games_menu_moves(option: int, prev: ButtonState, now: ButtonState)
    requires
        0 <= option < GAMES_MENU_ROWS,
    ensures
        now.up != prev.up && now.down == prev.down ==> games_menu_moved(option, prev, now) == if option
            > 0 {
            option - 1
        } else {
            0
        },
        now.down != prev.down && now.up == prev.up ==> games_menu_moved(option, prev, now) == if option
            < GAMES_MENU_ROWS - 1 {
            option + 1
        } else {
            GAMES_MENU_ROWS - 1
        },
{
}

/// The menu lists the debug screen, then snake, 20 pixels apart from y = 20;
/// the arrow stands at the row of the selected game.
pub proof fn lemma_games_menu_rows(option: int)
    requires
        0 <= option < GAMES_MENU_ROWS,
    ensures
        games_menu_game(option) == seq![Some(Game::Debug), Some(Game::Snake)][option],
        games_menu_arrow_y(option) == Some((20 + 20 * option) as i32),
{
}

/// In range, pressing X always starts a game, and each selection starts a
/// different one.
pub proof fn lemma_games_menu_launches(i: int, j: int)
    requires
        0 <= i < GAMES_MENU_ROWS,
        0 <= j < GAMES_MENU_ROWS,
    ensures
        games_menu_game(i) is Some,
        games_menu_game(i) == games_menu_game(j) ==> i == j,
{
}

} // verus!
