use esp32_gamepad::config::MenuChoice;
use esp32_gamepad::display::games::{Game, GamesMenu};
use esp32_gamepad::display::menu::MainMenu;
use esp32_gamepad::input::buttons::ButtonState;

fn none() -> ButtonState {
    ButtonState::default()
}

#[test]
fn main_menu_opens_on_bluetooth() {
    let m = MainMenu::new();
    assert_eq!(m.option, 0);
    assert_eq!(m.arrow_y(), 30);
}

#[test]
fn main_menu_moves_on_presses_and_stops_at_the_ends() {
    let mut m = MainMenu::new();
    let mut up = none();
    up.up = true;
    let mut down = none();
    down.down = true;
    assert_eq!(m.step(up), None);
    assert_eq!(m.option, 0);
    assert_eq!(m.step(none()), None); // releasing does not move
    assert_eq!(m.option, 0);
    assert_eq!(m.step(down), None);
    assert_eq!(m.option, 1);
    assert_eq!(m.arrow_y(), 45);
    assert_eq!(m.step(down), None); // held: no repeat
    assert_eq!(m.option, 1);
    assert_eq!(m.step(none()), None); // released: stays
    assert_eq!(m.option, 1);
    assert_eq!(m.step(down), None);
    assert_eq!(m.option, 2);
    assert_eq!(m.arrow_y(), 55);
    assert_eq!(m.step(none()), None);
    assert_eq!(m.step(down), None);
    assert_eq!(m.option, 2);
    assert_eq!(m.step(none()), None);
    assert_eq!(m.step(up), None);
    assert_eq!(m.option, 1);
}

#[test]
fn main_menu_tap_moves_once() {
    let mut m = MainMenu::new();
    let mut down = none();
    down.down = true;
    assert_eq!(m.step(down), None);
    assert_eq!(m.step(none()), None);
    let mut x = none();
    x.x = true;
    assert_eq!(m.step(x), Some(MenuChoice::Games));
}

#[test]
fn main_menu_long_press_moves_once() {
    let mut m = MainMenu::new();
    let mut down = none();
    down.down = true;
    assert_eq!(m.step(down), None);
    assert_eq!(m.step(down), None);
    let mut down_x = down;
    down_x.x = true;
    assert_eq!(m.step(down_x), Some(MenuChoice::Games));
}

#[test]
fn main_menu_chooses_on_x_change() {
    let choices = [MenuChoice::Bluetooth, MenuChoice::Games, MenuChoice::Settings];
    for (i, c) in choices.iter().enumerate() {
        let mut m = MainMenu::new();
        m.option = i as i32;
        let mut x = none();
        x.x = true;
        assert_eq!(m.step(x), Some(*c));
    }
}

#[test]
fn main_menu_held_x_at_open_chooses_on_release() {
    let mut m = MainMenu::new();
    m.prev.x = true;
    let mut x = none();
    x.x = true;
    assert_eq!(m.step(x), None);
    assert_eq!(m.step(none()), Some(MenuChoice::Bluetooth));
}

#[test]
fn main_menu_out_of_range_falls_back() {
    let mut m = MainMenu::new();
    m.option = 7;
    assert_eq!(m.arrow_y(), 30);
    let mut x = none();
    x.x = true;
    assert_eq!(m.step(x), Some(MenuChoice::Bluetooth));
}

#[test]
fn games_menu_moves_on_edges_only() {
    let mut g = GamesMenu::new();
    assert_eq!(g.arrow_y(), Some(20));
    let mut down = none();
    down.down = true;
    let a = g.step(down);
    assert_eq!((a.launch, a.leave), (None, false));
    assert_eq!(g.option, 1);
    assert_eq!(g.arrow_y(), Some(40));
    // holding down does nothing more
    g.step(down);
    assert_eq!(g.option, 1);
    // releasing down is a change too, but the selection is at the bottom
    g.step(none());
    assert_eq!(g.option, 1);
    let mut up = none();
    up.up = true;
    g.step(up);
    assert_eq!(g.option, 0);
    // releasing up moves up again, which stops at the top
    g.step(none());
    assert_eq!(g.option, 0);
}

#[test]
fn games_menu_launches_and_leaves() {
    let mut g = GamesMenu::new();
    let mut x = none();
    x.x = true;
    assert_eq!(g.step(x).launch, Some(Game::Debug));
    let mut g = GamesMenu::new();
    g.option = 1;
    assert_eq!(g.step(x).launch, Some(Game::Snake));
    let mut xb = x;
    xb.b = true;
    let a = g.step(xb);
    assert_eq!(a.launch, Some(Game::Snake));
    assert!(a.leave);
    let mut g = GamesMenu::new();
    g.option = 5;
    assert_eq!(g.arrow_y(), None);
    assert_eq!(g.step(x).launch, None);
}
