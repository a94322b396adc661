//! The view state machine: which screen is active and how control passes
//! from one screen to the next.

use vstd::prelude::*;

verus! {

/// The answer a view gives each frame to the loop that drives it.
#[derive(Debug, PartialEq, Eq)]
pub enum ViewAction<V> {
    /// Keep presenting this view.
    Continue,
    /// Stop the application.
    Quit,
    /// Drop this view; the given one is active from the next frame on.
    ChangeView(V),
}

/// The screens of the game.
#[derive(Clone, Copy, Debug, PartialEq, Eq, Structural)]
pub enum Screen {
    MainMenu,
    Game,
}

/// What the loop holds after a view has answered.
#[derive(Debug, PartialEq, Eq)]
pub struct Transition<V> {
    /// The view to call on the next frame; nothing when the loop ends.
    pub view: Option<V>,
    /// Whether what the view drew this frame is shown.
    pub present: bool,
}

/// The loop's state after `current` answered `action`.
pub open spec fn spec_transition<V>(current: V, action: ViewAction<V>) -> Transition<V> {
    match action {
        ViewAction::Continue => Transition { view: Some(current), present: true },
        ViewAction::Quit => Transition { view: None, present: false },
        ViewAction::ChangeView(next) => Transition { view: Some(next), present: false },
    }
}

/// Applies a view's answer. The active view stays and its frame is shown, or
/// the loop ends, or the new view takes over at once: it is the one called
/// on the very next frame, and the outgoing view draws nothing more.
pub fn transition<V>(current: V, action: ViewAction<V>) -> (out: Transition<V>)
    ensures
        out == spec_transition(current, action),
{
    match action {
        ViewAction::Continue => Transition { view: Some(current), present: true },
        ViewAction::Quit => Transition { view: None, present: false },
        ViewAction::ChangeView(next) => Transition { view: Some(next), present: false },
    }
}

} // verus!
