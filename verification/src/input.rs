//! What the player does, as plain values: the events that arrive one by one
//! and the keys that are held while a frame is computed.

use vstd::prelude::*;

verus! {

/// A key that the game tells apart when it is pressed.
#[derive(Clone, Copy, Debug, PartialEq, Eq, Structural)]
pub enum Key {
    /// Ends the game.
    Escape,
    /// Pauses the game, or takes it up again.
    Space,
    /// Any other key.
    Other,
}

/// An event from the window or the keyboard.
#[derive(Clone, Copy, Debug, PartialEq, Eq, Structural)]
pub enum Event {
    /// The window was asked to close.
    Quit,
    /// A key went down.
    KeyDown(Key),
    /// Anything else.
    Other,
}

impl Event {
    /// The event ends the game.
    pub open spec fn stops(self) -> bool {
        self == Event::Quit || self == Event::KeyDown(Key::Escape)
    }

    /// The event switches between paused and playing.
    pub open spec fn toggles(self) -> bool {
        self == Event::KeyDown(Key::Space)
    }
}

/// The paddle keys as they are held at one moment.
#[derive(Clone, Copy, Debug, PartialEq, Eq, Structural)]
pub struct Keys {
    /// The key that moves the paddle up is held.
    pub up: bool,
    /// The key that moves the paddle down is held.
    pub down: bool,
}

} // verus!
