//! The decoded input of one frame, and how it is kept up to date.
//!
//! Two things are known of every tracked key: whether it is held right now,
//! and whether it went down during the current frame. Movement reads the
//! first, firing and menu navigation read the second.

use vstd::prelude::*;

verus! {

/// The keys the game listens to.
#[derive(Clone, Copy, Debug, PartialEq, Eq, Structural)]
pub enum Key {
    Escape,
    Up,
    Down,
    Left,
    Right,
    Space,
    Return,
    Num1,
    Num2,
    Num3,
}

/// What happened since the previous frame. A key flag is true only on the
/// frame in which the key went from released to pressed.
#[derive(Clone, Copy, Debug, PartialEq, Eq, Structural)]
pub struct ImmediateEvents {
    pub quit: bool,
    pub key_escape: bool,
    pub key_up: bool,
    pub key_down: bool,
    pub key_left: bool,
    pub key_right: bool,
    pub key_space: bool,
    pub key_return: bool,
    pub key_1: bool,
    pub key_2: bool,
    pub key_3: bool,
}

/// The input snapshot a view is given: the edges of this frame under `now`,
/// and for each key whether it is currently held.
#[derive(Clone, Copy, Debug, PartialEq, Eq, Structural)]
pub struct Events {
    pub now: ImmediateEvents,
    pub key_escape: bool,
    pub key_up: bool,
    pub key_down: bool,
    pub key_left: bool,
    pub key_right: bool,
    pub key_space: bool,
    pub key_return: bool,
    pub key_1: bool,
    pub key_2: bool,
    pub key_3: bool,
}

impl ImmediateEvents {
    /// Whether `key` went down during this frame.
    pub open spec fn pressed(self, key: Key) -> bool {
        match key {
            Key::Escape => self.key_escape,
            Key::Up => self.key_up,
            Key::Down => self.key_down,
            Key::Left => self.key_left,
            Key::Right => self.key_right,
            Key::Space => self.key_space,
            Key::Return => self.key_return,
            Key::Num1 => self.key_1,
            Key::Num2 => self.key_2,
            Key::Num3 => self.key_3,
        }
    }

    /// A frame in which nothing has happened.
    pub fn new() -> (out: ImmediateEvents)
        ensures
            !out.quit,
            forall|key: Key| !out.pressed(key),
    {
        ImmediateEvents {
            quit: false,
            key_escape: false,
            key_up: false,
            key_down: false,
            key_left: false,
            key_right: false,
            key_space: false,
            key_return: false,
            key_1: false,
            key_2: false,
            key_3: false,
        }
    }
}

impl ImmediateEvents {
    fn mark(&mut self, key: Key)
        ensures
            final(self).quit == old(self).quit,
            final(self).pressed(key),
            forall|other: Key| other != key ==> final(self).pressed(other) == old(self).pressed(other),
    {
        match key {
            Key::Escape => self.key_escape = true,
            Key::Up => self.key_up = true,
            Key::Down => self.key_down = true,
            Key::Left => self.key_left = true,
            Key::Right => self.key_right = true,
            Key::Space => self.key_space = true,
            Key::Return => self.key_return = true,
            Key::Num1 => self.key_1 = true,
            Key::Num2 => self.key_2 = true,
            Key::Num3 => self.key_3 = true,
        }
    }
}

impl Events {
    /// Whether `key` is held.
    pub open spec fn held(self, key: Key) -> bool {
        match key {
            Key::Escape => self.key_escape,
            Key::Up => self.key_up,
            Key::Down => self.key_down,
            Key::Left => self.key_left,
            Key::Right => self.key_right,
            Key::Space => self.key_space,
            Key::Return => self.key_return,
            Key::Num1 => self.key_1,
            Key::Num2 => self.key_2,
            Key::Num3 => self.key_3,
        }
    }

    /// No key held and nothing pressed.
    pub fn new() -> (out: Events)
        ensures
            !out.now.quit,
            forall|key: Key| !out.held(key) && !out.now.pressed(key),
    {
        Events {
            now: ImmediateEvents::new(),
            key_escape: false,
            key_up: false,
            key_down: false,
            key_left: false,
            key_right: false,
            key_space: false,
            key_return: false,
            key_1: false,
            key_2: false,
            key_3: false,
        }
    }

    /// Starts a new frame: the edges of the previous frame are forgotten,
    /// what is held stays held.
    pub fn begin_frame(&mut self)
        ensures
            !final(self).now.quit,
            forall|key: Key| !final(self).now.pressed(key),
            forall|key: Key| final(self).held(key) == old(self).held(key),
    {
        self.now = ImmediateEvents::new();
    }

    /// Records that the window was asked to close.
    pub fn request_quit(&mut self)
        ensures
            *final(self) == (Events { now: ImmediateEvents { quit: true, ..old(self).now }, ..*old(self) }),
    {
        self.now.quit = true;
    }

    /// Reads whether `key` is held.
    pub fn is_held(&self, key: Key) -> (out: bool)
        ensures
            out == self.held(key),
    {
        match key {
            Key::Escape => self.key_escape,
            Key::Up => self.key_up,
            Key::Down => self.key_down,
            Key::Left => self.key_left,
            Key::Right => self.key_right,
            Key::Space => self.key_space,
            Key::Return => self.key_return,
            Key::Num1 => self.key_1,
            Key::Num2 => self.key_2,
            Key::Num3 => self.key_3,
        }
    }

    fn set_held(&mut self, key: Key, value: bool)
        ensures
            final(self).now == old(self).now,
            final(self).held(key) == value,
            forall|other: Key| other != key ==> final(self).held(other) == old(self).held(other),
    {
        match key {
            Key::Escape => self.key_escape = value,
            Key::Up => self.key_up = value,
            Key::Down => self.key_down = value,
            Key::Left => self.key_left = value,
            Key::Right => self.key_right = value,
            Key::Space => self.key_space = value,
            Key::Return => self.key_return = value,
            Key::Num1 => self.key_1 = value,
            Key::Num2 => self.key_2 = value,
            Key::Num3 => self.key_3 = value,
        }
    }

    /// Records a key going down. The key counts as pressed this frame only
    /// if it was not held already, so a key that repeats while held gives no
    /// second press.
    pub fn press(&mut self, key: Key)
        ensures
            final(self).now.quit == old(self).now.quit,
            final(self).held(key),
            final(self).now.pressed(key) == (old(self).now.pressed(key) || !old(self).held(key)),
            forall|other: Key|
                other != key ==> final(self).held(other) == old(self).held(other)
                    && final(self).now.pressed(other) == old(self).now.pressed(other),
    {
        if !self.is_held(key) {
            self.now.mark(key);
        }
        self.set_held(key, true);
    }

    /// Records a key going up. A press seen earlier in the frame stays seen.
    pub fn release(&mut self, key: Key)
        ensures
            final(self).now == old(self).now,
            !final(self).held(key),
            forall|other: Key| other != key ==> final(self).held(other) == old(self).held(other),
    {
        self.set_held(key, false);
    }

    /// The held keys ask for motion along both axes at once. Opposing keys
    /// held together cancel and ask for none along their axis.
    pub open spec fn spec_is_key_diagonal(self) -> bool {
        (self.key_up != self.key_down) && (self.key_left != self.key_right)
    }

    /// Whether the ship is being steered diagonally.
    pub fn is_key_diagonal(&self) -> (out: bool)
        ensures
            out == self.spec_is_key_diagonal(),
    {
        (self.key_up != self.key_down) && (self.key_left != self.key_right)
    }
}

} // verus!
