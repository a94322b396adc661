//! The main menu: a list of entries, one of them selected.

use vstd::prelude::*;
use crate::input::Events;
use crate::view::{Screen, ViewAction};

verus! {

/// What a menu entry does when it is confirmed.
#[derive(Clone, Copy, Debug, PartialEq, Eq, Structural)]
pub enum MenuChoice {
    NewGame,
    Quit,
}

impl MenuChoice {
    /// The answer the menu gives when this entry is confirmed.
    pub open spec fn spec_run(self) -> ViewAction<Screen> {
        match self {
            MenuChoice::NewGame => ViewAction::ChangeView(Screen::Game),
            MenuChoice::Quit => ViewAction::Quit,
        }
    }

    /// Carries the entry out.
    pub fn run(self) -> (out: ViewAction<Screen>)
        ensures
            out == self.spec_run(),
    {
        match self {
            MenuChoice::NewGame => ViewAction::ChangeView(Screen::Game),
            MenuChoice::Quit => ViewAction::Quit,
        }
    }
}

/// The menu screen, as far as its decisions go.
pub struct MainMenuView {
    /// The entries, top to bottom.
    pub actions: Vec<MenuChoice>,
    /// The entry the cursor is on.
    pub selected: i8,
}

/// The cursor one entry up, from the top entry around to the last.
pub open spec fn cursor_up(selected: int, entries: int) -> int {
    if selected - 1 < 0 {
        entries - 1
    } else {
        selected - 1
    }
}

/// The cursor one entry down, from the last entry around to the top.
pub open spec fn cursor_down(selected: int, entries: int) -> int {
    if selected + 1 >= entries {
        0
    } else {
        selected + 1
    }
}

impl MainMenuView {
    /// There is an entry, the cursor is on one, and the entries are few
    /// enough to be counted by the cursor.
    pub open spec fn wf(&self) -> bool {
        &&& 0 < self.actions@.len() <= i8::MAX
        &&& 0 <= self.selected < self.actions@.len()
    }

    /// The menu's answer to this frame's input: a quit request ends the
    /// application, else escape starts a game, else the fire or return key
    /// confirms the selected entry, else the menu stays.
    pub open spec fn spec_answer(&self, events: Events) -> ViewAction<Screen> {
        if events.now.quit {
            ViewAction::Quit
        } else if events.now.key_escape {
            ViewAction::ChangeView(Screen::Game)
        } else if events.now.key_space || events.now.key_return {
            self.actions@[self.selected as int].spec_run()
        } else {
            ViewAction::Continue
        }
    }

    /// Where the cursor is after a frame in which the menu stays: moved by
    /// the up key, then by the down key.
    pub open spec fn spec_moved(&self, events: Events) -> int {
        let entries = self.actions@.len() as int;
        let up = if events.now.key_up {
            cursor_up(self.selected as int, entries)
        } else {
            self.selected as int
        };
        if events.now.key_down {
            cursor_down(up, entries)
        } else {
            up
        }
    }

    /// Tests `wf`.
    pub fn is_wf(&self) -> (out: bool)
        ensures
            out == self.wf(),
    {
        let entries: usize = self.actions.len();
        0 < entries && entries <= 127 && 0 <= self.selected && (self.selected as usize) < entries
    }

    /// The menu of the game: a new game, or quit, with the cursor on top.
    pub fn new() -> (out: MainMenuView)
        ensures
            out.wf(),
            out.actions@ == seq![MenuChoice::NewGame, MenuChoice::Quit],
            out.selected == 0,
    {
        let mut actions: Vec<MenuChoice> = Vec::new();
        actions.push(MenuChoice::NewGame);
        actions.push(MenuChoice::Quit);
        proof {
            assert(actions@ =~= seq![MenuChoice::NewGame, MenuChoice::Quit]);
        }
        MainMenuView { actions, selected: 0 }
    }

    /// Handles one frame of input. Leaving is decided before anything
    /// changes: the cursor moves only when the menu stays.
    pub fn update(&mut self, events: &Events) -> (out: ViewAction<Screen>)
        requires
            old(self).wf(),
        ensures
            final(self).wf(),
            out == old(self).spec_answer(*events),
            final(self).actions@ == old(self).actions@,
            final(self).selected == if out == ViewAction::<Screen>::Continue {
                old(self).spec_moved(*events)
            } else {
                old(self).selected as int
            },
    {
        if events.now.quit {
            return ViewAction::Quit;
        }
        if events.now.key_escape {
            return ViewAction::ChangeView(Screen::Game);
        }
        if events.now.key_space || events.now.key_return {
            return self.actions[self.selected as usize].run();
        }
        let entries: usize = self.actions.len();
        if events.now.key_up {
            self.selected -= 1;
            if self.selected < 0 {
                self.selected = (entries - 1) as i8;
            }
        }
        if events.now.key_down {
            self.selected += 1;
            if self.selected as usize >= entries {
                self.selected = 0;
            }
        }
        ViewAction::Continue
    }
}

/// Going up and then down, or down and then up, leaves the cursor where it
/// was, wherever it stood.
pub proof fn lemma_cursor_round_trip(selected: int, entries: int)
    requires
        0 <= selected < entries,
    ensures
        cursor_down(cursor_up(selected, entries), entries) == selected,
        cursor_up(cursor_down(selected, entries), entries) == selected,
        0 <= cursor_up(selected, entries) < entries,
        0 <= cursor_down(selected, entries) < entries,
{
}

} // verus!
