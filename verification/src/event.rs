//! The closed set of inputs that the frame loop reacts to.

use vstd::prelude::*;

use crate::surface::Size;

verus! {

/// Whether a key went down or came up.
#[derive(Clone, Copy, Debug, PartialEq, Eq, Structural)]
pub enum KeyState {
    Pressed,
    Released,
}

/// A key as far as the loop tells keys apart: the cancel key, and the rest.
#[derive(Clone, Copy, Debug, PartialEq, Eq, Structural)]
pub enum Key {
    Escape,
    Other,
}

/// One input to the frame loop.
///
/// A pointer move carries no position: positions are fractional pixel
/// coordinates and stay with the caller, who is told by
/// `Action::Recolor` what to divide them by.
#[derive(Clone, Copy, Debug, PartialEq, Eq)]
pub enum Event {
    /// The window has a new physical size, after a resize by the user or a
    /// change of pixel density.
    Resize(Size),
    /// The pointer moved inside the window.
    PointerMove,
    /// A key changed state.  `key` is `None` where the window system could
    /// not name the key.
    KeyInput { state: KeyState, key: Option<Key> },
    /// The user asked to close the window.
    CloseRequest,
    /// All pending events have been delivered.
    Idle,
    /// The window asks for its content to be drawn.
    RedrawRequest,
}

impl Event {
    /// A press of the cancel key.
    pub open spec fn is_cancel(self) -> bool {
        self == (Event::KeyInput { state: KeyState::Pressed, key: Some(Key::Escape) })
    }

    /// The events that end the loop: a close request, and a press of the
    /// cancel key.
    pub open spec fn ends_loop(self) -> bool {
        self == Event::CloseRequest || self.is_cancel()
    }

    /// Decides `ends_loop`.
    pub fn requests_exit(&self) -> (yes: bool)
        ensures
            yes == self.ends_loop(),
    {
        match self {
            Event::CloseRequest => true,
            Event::KeyInput { state: KeyState::Pressed, key: Some(Key::Escape) } => true,
            _ => false,
        }
    }
}

} // verus!
