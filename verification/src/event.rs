//! Window events, reduced to what the library decides on.

use vstd::prelude::*;

verus! {

/// The keys that mean something to the playground.
#[derive(Clone, Copy, Debug, PartialEq, Eq, Structural)]
pub enum Key {
    W,
    A,
    S,
    D,
    Escape,
    /// Any other key.
    Other,
}

/// What happened to a key.
#[derive(Clone, Copy, Debug, PartialEq, Eq, Structural)]
pub enum Action {
    Release,
    Press,
    Repeat,
}

impl Action {
    /// Whether the key is down after the action.
    pub open spec fn is_down(self) -> bool {
        self is Press || self is Repeat
    }

    /// Whether the key is down after the action: pressed, or held so long that
    /// it repeats.
    pub fn pressed(self) -> (down: bool)
        ensures
            down == self.is_down(),
    {
        match self {
            Action::Press | Action::Repeat => true,
            Action::Release => false,
        }
    }
}

/// An event of the window. Positions and offsets stay with the driver: the
/// library decides on the kind of event alone.
#[derive(Clone, Copy, Debug, PartialEq, Eq, Structural)]
pub enum WindowEvent {
    /// A key was pressed, held or released.
    Key(Key, Action),
    /// The cursor moved.
    CursorPos,
    /// The wheel was turned.
    Scroll,
    /// The framebuffer has a new width and height.
    FramebufferSize(i32, i32),
    /// The user asked for the window to be closed.
    Close,
    /// Any other event.
    Other,
}

} // verus!
