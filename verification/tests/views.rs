use arcaders::game::{GameView, ShipView};
use arcaders::input::Events;
use arcaders::menu::{MainMenuView, MenuChoice};
use arcaders::view::{transition, Screen, Transition, ViewAction};

fn pressed_escape() -> Events {
    let mut events = Events::new();
    events.now.key_escape = true;
    events
}

#[test]
fn continue_keeps_the_view_and_presents() {
    assert_eq!(
        transition(Screen::Game, ViewAction::Continue),
        Transition { view: Some(Screen::Game), present: true }
    );
}

#[test]
fn quit_ends_the_loop() {
    assert_eq!(
        transition(Screen::Game, ViewAction::Quit),
        Transition { view: None, present: false }
    );
}

#[test]
fn change_view_hands_over_without_presenting() {
    assert_eq!(
        transition(Screen::Game, ViewAction::ChangeView(Screen::MainMenu)),
        Transition { view: Some(Screen::MainMenu), present: false }
    );
}

#[test]
fn menu_is_presented_on_the_tick_after_replace() {
    // A driver that records which screen answered each tick.
    let mut game = GameView::new();
    let mut menu = MainMenuView::new();
    let inputs = vec![Events::new(), pressed_escape(), Events::new(), Events::new()];
    let mut current = Screen::Game;
    let mut called = Vec::new();
    let mut presented = Vec::new();
    for events in &inputs {
        called.push(current);
        let action = match current {
            Screen::Game => game.begin_frame(events),
            Screen::MainMenu => menu.update(events),
        };
        let step = transition(current, action);
        if step.present {
            presented.push(current);
        }
        match step.view {
            Some(next) => current = next,
            None => break,
        }
    }
    assert_eq!(called, vec![Screen::Game, Screen::Game, Screen::MainMenu, Screen::MainMenu]);
    assert_eq!(presented, vec![Screen::Game, Screen::MainMenu, Screen::MainMenu]);
}

#[test]
fn game_checks_quit_before_escape() {
    let mut events = pressed_escape();
    events.now.quit = true;
    events.now.key_3 = true;
    let mut game = GameView::new();
    let before = game;
    assert_eq!(game.begin_frame(&events), ViewAction::Quit);
    assert_eq!(game, before);
}

#[test]
fn game_leaves_for_the_menu_unchanged() {
    let mut events = pressed_escape();
    events.now.key_2 = true;
    let mut game = GameView::new();
    let before = game;
    assert_eq!(game.begin_frame(&events), ViewAction::ChangeView(Screen::MainMenu));
    assert_eq!(game, before);
}

#[test]
fn flight_screen_quits_on_escape() {
    let view = ShipView::new();
    assert_eq!(view.begin_frame(&pressed_escape()), ViewAction::Quit);
    let mut events = Events::new();
    assert_eq!(view.begin_frame(&events), ViewAction::Continue);
    events.now.quit = true;
    assert_eq!(view.begin_frame(&events), ViewAction::Quit);
}

#[test]
fn menu_starts_on_new_game() {
    let menu = MainMenuView::new();
    assert_eq!(menu.actions, vec![MenuChoice::NewGame, MenuChoice::Quit]);
    assert_eq!(menu.selected, 0);
}

#[test]
fn menu_cursor_wraps_both_ways() {
    let mut menu = MainMenuView::new();
    let mut up = Events::new();
    up.now.key_up = true;
    let mut down = Events::new();
    down.now.key_down = true;

    assert_eq!(menu.update(&up), ViewAction::Continue);
    assert_eq!(menu.selected, 1);
    assert_eq!(menu.update(&up), ViewAction::Continue);
    assert_eq!(menu.selected, 0);
    assert_eq!(menu.update(&down), ViewAction::Continue);
    assert_eq!(menu.selected, 1);
    assert_eq!(menu.update(&down), ViewAction::Continue);
    assert_eq!(menu.selected, 0);
}

#[test]
fn menu_up_and_down_together_cancel() {
    let mut menu = MainMenuView::new();
    let mut both = Events::new();
    both.now.key_up = true;
    both.now.key_down = true;
    assert_eq!(menu.update(&both), ViewAction::Continue);
    assert_eq!(menu.selected, 0);
    menu.selected = 1;
    assert_eq!(menu.update(&both), ViewAction::Continue);
    assert_eq!(menu.selected, 1);
}

#[test]
fn menu_with_three_entries() {
    let mut menu = MainMenuView {
        actions: vec![MenuChoice::NewGame, MenuChoice::NewGame, MenuChoice::Quit],
        selected: 0,
    };
    let mut up = Events::new();
    up.now.key_up = true;
    assert_eq!(menu.update(&up), ViewAction::Continue);
    assert_eq!(menu.selected, 2);
    let mut confirm = Events::new();
    confirm.now.key_return = true;
    assert_eq!(menu.update(&confirm), ViewAction::Quit);
    assert_eq!(menu.selected, 2);
}

#[test]
fn menu_confirms_the_selected_entry() {
    let mut menu = MainMenuView::new();
    let mut fire = Events::new();
    fire.now.key_space = true;
    fire.now.key_down = true;
    assert_eq!(menu.update(&fire), ViewAction::ChangeView(Screen::Game));
    assert_eq!(menu.selected, 0);

    menu.selected = 1;
    let mut enter = Events::new();
    enter.now.key_return = true;
    assert_eq!(menu.update(&enter), ViewAction::Quit);
    assert_eq!(MenuChoice::NewGame.run(), ViewAction::ChangeView(Screen::Game));
    assert_eq!(MenuChoice::Quit.run(), ViewAction::Quit);
}

#[test]
fn menu_escape_and_quit_come_first() {
    let mut menu = MainMenuView::new();
    menu.selected = 1;
    let mut events = pressed_escape();
    events.now.key_return = true;
    events.now.key_up = true;
    assert_eq!(menu.update(&events), ViewAction::ChangeView(Screen::Game));
    assert_eq!(menu.selected, 1);
    events.now.quit = true;
    assert_eq!(menu.update(&events), ViewAction::Quit);
    assert_eq!(menu.selected, 1);
}

#[test]
fn well_formed_menus() {
    assert!(MainMenuView::new().is_wf());
    assert!(!MainMenuView { actions: vec![], selected: 0 }.is_wf());
    assert!(!MainMenuView { actions: vec![MenuChoice::Quit], selected: 1 }.is_wf());
    assert!(!MainMenuView { actions: vec![MenuChoice::Quit], selected: -1 }.is_wf());
    assert!(MainMenuView { actions: vec![MenuChoice::Quit; 127], selected: 126 }.is_wf());
    assert!(!MainMenuView { actions: vec![MenuChoice::Quit; 128], selected: 0 }.is_wf());
}
