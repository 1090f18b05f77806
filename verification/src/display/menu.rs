use vstd::prelude::*;
use crate::config::MenuChoice;
use crate::input::buttons::{ButtonState, all_released};

verus! {

/// Number of entries in the main menu.
pub const MAIN_MENU_ROWS: i32 = 3;

/// The selection after one scan: up pressed since the previous scan moves it
/// up while it is below the top, then down pressed since the previous scan
/// moves it down while it is above the bottom. Holding a direction moves the
/// selection once, not once per scan; releasing it does not move it.
pub open spec fn main_menu_moved(option: int, prev: ButtonState, now: ButtonState) -> int {
    let raised = if now.up && !prev.up && option > 0 {
        option - 1
    } else {
        option
    };
    if now.down && !prev.down && raised < MAIN_MENU_ROWS - 1 {
        raised + 1
    } else {
        raised
    }
}

/// The entry chosen at a selection; anything out of range falls back to
/// Bluetooth, the first entry.
pub open spec fn main_menu_choice(option: int) -> MenuChoice {
    if option == 1 {
        MenuChoice::Games
    } else if option == 2 {
        MenuChoice::Settings
    } else {
        MenuChoice::Bluetooth
    }
}

/// Vertical position of the selection arrow; out of range it stands at the
/// first entry.
pub open spec fn main_menu_arrow_y(option: int) -> i32 {
    if option == 1 {
        45
    } else if option == 2 {
        55
    } else {
        30
    }
}

/// State of the main menu between two scans of the buttons: the selected
/// entry and the buttons of the previous scan, kept so that a held X chooses
/// only once.
pub struct MainMenu {
    pub option: i32,
    pub prev: ButtonState,
}

impl MainMenu {
    /// The menu as it opens: first entry selected, no button seen yet.
    pub fn new() -> (m: Self)
        ensures
            m.option == 0,
            all_released(m.prev),
    {
        MainMenu { option: 0, prev: ButtonState::default() }
    }

    /// Takes one scan of the buttons. Moves the selection when up or down has
    /// just been pressed, then chooses the selected entry when X differs from the
    /// previous scan (pressed or released). The scan becomes the previous one.
    pub fn step(&mut self, now: ButtonState) -> (choice: Option<MenuChoice>)
        ensures
            final(self).option == main_menu_moved(old(self).option as int, old(self).prev, now),
            choice == (if now.x != old(self).prev.x {
                Some(main_menu_choice(final(self).option as int))
            } else {
                None
            }),
            final(self).prev == now,
    {
        if now.up && !self.prev.up {
            if self.option > 0 {
                self.option = self.option - 1;
            }
        }
        if now.down && !self.prev.down {
            if self.option < MAIN_MENU_ROWS - 1 {
                self.option = self.option + 1;
            }
        }
        let chosen = now.x != self.prev.x;
        self.prev = now;
        if chosen {
            return Some(
                match self.option {
                    0 => MenuChoice::Bluetooth,
                    1 => MenuChoice::Games,
                    2 => MenuChoice::Settings,
                    _ => MenuChoice::Bluetooth,
                },
            );
        }
        None
    }

    /// Where the selection arrow is drawn.
    pub fn arrow_y(&self) -> (y: i32)
        ensures
            y == main_menu_arrow_y(self.option as int),
    {
        match self.option {
            0 => 30,
            1 => 45,
            2 => 55,
            _ => 30,
        }
    }
}

/// The selection never leaves the menu: from any entry, one scan leads to an
/// entry.
pub proof fn lemma_main_menu_stays_in_range(option: int, prev: ButtonState, now: ButtonState)
    requires
        0 <= option < MAIN_MENU_ROWS,
    ensures
        0 <= main_menu_moved(option, prev, now) < MAIN_MENU_ROWS,
{
}

/// A held button does not repeat: a scan equal to the previous one keeps the
/// selection.
pub proof fn lemma_main_menu_held_keeps(option: int, now: ButtonState)
    ensures
        main_menu_moved(option, now, now) == option,
{
}

/// Pressing up alone moves one entry up, stopping at the top; pressing down
/// alone moves one entry down, stopping at the bottom; holding or releasing
/// keeps the selection.
pub proof fn lemma_main_menu_moves(option: int, prev: ButtonState, now: ButtonState)
    requires
        0 <= option < MAIN_MENU_ROWS,
    ensures
        now.up && !prev.up && !(now.down && !prev.down) ==> main_menu_moved(option, prev, now)
            == if option > 0 {
            option - 1
        } else {
            0
        },
        now.down && !prev.down && !(now.up && !prev.up) ==> main_menu_moved(option, prev, now)
            == if option < MAIN_MENU_ROWS - 1 {
            option + 1
        } else {
            MAIN_MENU_ROWS - 1
        },
        !(now.up && !prev.up) && !(now.down && !prev.down) ==> main_menu_moved(option, prev, now)
            == option,
{
}

/// Only up and down move the selection: scans that agree on up and down,
/// after previous scans that agree on up and down, lead to the same
/// selection, whatever the other buttons do.
pub proof fn lemma_main_menu_moves_only_on_up_down(
    option: int,
    prev1: ButtonState,
    now1: ButtonState,
    prev2: ButtonState,
    now2: ButtonState,
)
    requires
        prev1.up == prev2.up,
        prev1.down == prev2.down,
        now1.up == now2.up,
        now1.down == now2.down,
    ensures
        main_menu_moved(option, prev1, now1) == main_menu_moved(option, prev2, now2),
{
}

/// The menu lists Bluetooth, games and settings, and the arrow stands at the
/// row of the selected entry (y = 30, 45, 55).
pub proof fn lemma_main_menu_rows(option: int)
    requires
        0 <= option < MAIN_MENU_ROWS,
    ensures
        main_menu_choice(option) == seq![
            MenuChoice::Bluetooth,
            MenuChoice::Games,
            MenuChoice::Settings,
        ][option],
        main_menu_arrow_y(option) == seq![30i32, 45i32, 55i32][option],
{
}

/// Each entry of the menu is chosen from exactly one selection.
pub proof fn lemma_main_menu_choices_distinct(i: int, j: int)
    requires
        0 <= i < MAIN_MENU_ROWS,
        0 <= j < MAIN_MENU_ROWS,
        main_menu_choice(i) == main_menu_choice(j),
    ensures
        i == j,
{
}

} // verus!
