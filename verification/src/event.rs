//! What the window reports to the game, and what the game asks for in return.

use crate::direction::Direction;
use vstd::prelude::*;

verus! {

/// The code of the escape key. Key codes follow the SDL numbering, which is
/// the one that the window back-end reports.
pub const KEY_ESCAPE: i32 = 0x1B;

/// The code of the right arrow key.
pub const KEY_RIGHT: i32 = 0x4000_004F;

/// The code of the left arrow key.
pub const KEY_LEFT: i32 = 0x4000_0050;

/// The code of the down arrow key.
pub const KEY_DOWN: i32 = 0x4000_0051;

/// The code of the up arrow key.
pub const KEY_UP: i32 = 0x4000_0052;

/// A button as the game tells buttons apart: one of the four arrow keys, the
/// escape key, or anything else (other keys, mouse and controller buttons).
#[derive(Clone, Copy, Debug, PartialEq, Eq, Structural)]
pub enum Button {
    Arrow(Direction),
    Escape,
    Other,
}

impl Button {
    /// The key binding: the button that the keyboard key with code `code`
    /// stands for. Every key but the four arrows and escape is `Other`.
    pub open spec fn of_key_code(code: i32) -> Button {
        if code == KEY_UP {
            Button::Arrow(Direction::Up)
        } else if code == KEY_DOWN {
            Button::Arrow(Direction::Down)
        } else if code == KEY_LEFT {
            Button::Arrow(Direction::Left)
        } else if code == KEY_RIGHT {
            Button::Arrow(Direction::Right)
        } else if code == KEY_ESCAPE {
            Button::Escape
        } else {
            Button::Other
        }
    }

    /// The button that the keyboard key with code `code` stands for.
    pub fn from_key_code(code: i32) -> (button: Button)
        ensures
            button == Button::of_key_code(code),
    {
        if code == KEY_UP {
            Button::Arrow(Direction::Up)
        } else if code == KEY_DOWN {
            Button::Arrow(Direction::Down)
        } else if code == KEY_LEFT {
            Button::Arrow(Direction::Left)
        } else if code == KEY_RIGHT {
            Button::Arrow(Direction::Right)
        } else if code == KEY_ESCAPE {
            Button::Escape
        } else {
            Button::Other
        }
    }
}

/// One event of the window's event stream. The frame time of an update tick
/// and the viewport of a render tick stay with the caller, who needs them to
/// carry out the `Action` that comes back.
#[derive(Clone, Copy, Debug, PartialEq, Eq, Structural)]
pub enum Event {
    /// The next frame is due to be drawn.
    Render,
    /// The simulation is due to advance by one tick.
    Update,
    /// A button went down.
    Press(Button),
    /// A button went up.
    Release(Button),
    /// Any other event: resize, focus, cursor movement, text.
    Other,
}

/// What the caller has to do after an event was handled.
#[derive(Clone, Copy, Debug, PartialEq, Eq, Structural)]
pub enum Action {
    /// Clear the surface and draw the square.
    Draw,
    /// Advance the square's motion by one tick, with the controls as they
    /// are now.
    Step,
    /// Stop: the game is over and no further event will be processed.
    Exit,
    /// Nothing to do.
    Nothing,
}

/// Each arrow and the escape key is bound to one key code, and no two of them
/// share a code.
pub proof fn lemma_key_binding_is_one_to_one(a: i32, b: i32)
    requires
        Button::of_key_code(a) == Button::of_key_code(b),
        Button::of_key_code(a) != Button::Other,
    ensures
        a == b,
{
}

} // verus!
