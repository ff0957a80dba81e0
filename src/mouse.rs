//! Turning the terminal's mouse reports into pointer buttons and positions.
use vstd::prelude::*;

verus! {

/// Pointer button code of the left button.
pub const BTN_LEFT: u32 = 0x110;
/// Pointer button code of the right button.
pub const BTN_RIGHT: u32 = 0x111;
/// Pointer button code of the middle button.
pub const BTN_MIDDLE: u32 = 0x112;

#[derive(Clone, Copy, Debug, PartialEq, Eq, Structural)]
pub enum MouseButton {
    Left,
    Right,
    Middle,
}

/// What the terminal says the mouse did.
#[derive(Clone, Copy, Debug, PartialEq, Eq, Structural)]
pub enum MouseEventKind {
    Down(MouseButton),
    Up(MouseButton),
    Drag(MouseButton),
    Moved,
    ScrollDown,
    ScrollUp,
    ScrollLeft,
    ScrollRight,
}

/// The button that an event presses, releases or drags with.
pub open spec fn button_of(kind: MouseEventKind) -> Option<MouseButton> {
    match kind {
        MouseEventKind::Down(b) | MouseEventKind::Up(b) | MouseEventKind::Drag(b) => Some(b),
        _ => None,
    }
}

pub open spec fn code_of_button(b: MouseButton) -> u32 {
    match b {
        MouseButton::Left => BTN_LEFT,
        MouseButton::Right => BTN_RIGHT,
        MouseButton::Middle => BTN_MIDDLE,
    }
}

/// The pointer button code of an event, for presses, releases and drags.
pub fn button_code(kind: MouseEventKind) -> (r: Option<u32>)
    ensures
        r == (match button_of(kind) {
            Some(b) => Some(code_of_button(b)),
            None => None,
        }),
{
    let b = match kind {
        MouseEventKind::Down(b) | MouseEventKind::Up(b) | MouseEventKind::Drag(b) => b,
        _ => {
            return None;
        },
    };
    Some(
        match b {
            MouseButton::Left => BTN_LEFT,
            MouseButton::Right => BTN_RIGHT,
            MouseButton::Middle => BTN_MIDDLE,
        },
    )
}

/// Whether an event leaves its button down: presses and drags do, releases
/// do not; other events have no button.
pub fn button_pressed(kind: MouseEventKind) -> (r: Option<bool>)
    ensures
        r == (match kind {
            MouseEventKind::Down(_) | MouseEventKind::Drag(_) => Some(true),
            MouseEventKind::Up(_) => Some(false),
            _ => None::<bool>,
        }),
{
    match kind {
        MouseEventKind::Down(_) | MouseEventKind::Drag(_) => Some(true),
        MouseEventKind::Up(_) => Some(false),
        _ => None,
    }
}

/// The pixel row of a terminal row: each cell is two pixels high.
pub fn pointer_row(row: u16) -> (r: u32)
    ensures
        r == 2 * row,
{
    2 * row as u32
}

} // verus!
