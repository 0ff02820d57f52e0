//! Input mapping: from raw key and controller-button codes to the commands the
//! game understands.
//!
//! Keys are given by their SDL keycode, controller buttons by their SDL game
//! controller button number. Codes that mean nothing to the game map to no
//! command and are ignored by the caller.

use vstd::prelude::*;

verus! {

/// A command for the game, whatever device it came from.
#[derive(Debug, Clone, Copy, PartialEq, Eq, Structural)]
pub enum GameInput {
    Up,
    Down,
    Left,
    Right,
    Select,
    Pause,
    Back,
}

/// Keycode of Return.
pub const KEY_RETURN: i32 = 13;

/// Keycode of Escape.
pub const KEY_ESCAPE: i32 = 27;

/// Keycode of the space bar.
pub const KEY_SPACE: i32 = 32;

/// Keycode of the letter A.
pub const KEY_A: i32 = 97;

/// Keycode of the letter D.
pub const KEY_D: i32 = 100;

/// Keycode of the letter S.
pub const KEY_S: i32 = 115;

/// Keycode of the letter W.
pub const KEY_W: i32 = 119;

/// Keycode of the right arrow.
pub const KEY_RIGHT: i32 = 1_073_741_903;

/// Keycode of the left arrow.
pub const KEY_LEFT: i32 = 1_073_741_904;

/// Keycode of the down arrow.
pub const KEY_DOWN: i32 = 1_073_741_905;

/// Keycode of the up arrow.
pub const KEY_UP: i32 = 1_073_741_906;

/// Number of the A button.
pub const BUTTON_A: i32 = 0;

/// Number of the B button.
pub const BUTTON_B: i32 = 1;

/// Number of the Start button.
pub const BUTTON_START: i32 = 6;

/// Number of the directional pad's up button.
pub const BUTTON_DPAD_UP: i32 = 11;

/// Number of the directional pad's down button.
pub const BUTTON_DPAD_DOWN: i32 = 12;

/// Number of the directional pad's left button.
pub const BUTTON_DPAD_LEFT: i32 = 13;

/// Number of the directional pad's right button.
pub const BUTTON_DPAD_RIGHT: i32 = 14;

/// The command a key stands for: arrows and W, A, S, D steer, Return and
/// Space select, Escape goes back. Other keys stand for nothing.
pub open spec fn key_command(keycode: i32) -> Option<GameInput> {
    if keycode == KEY_UP || keycode == KEY_W {
        Some(GameInput::Up)
    } else if keycode == KEY_DOWN || keycode == KEY_S {
        Some(GameInput::Down)
    } else if keycode == KEY_LEFT || keycode == KEY_A {
        Some(GameInput::Left)
    } else if keycode == KEY_RIGHT || keycode == KEY_D {
        Some(GameInput::Right)
    } else if keycode == KEY_RETURN || keycode == KEY_SPACE {
        Some(GameInput::Select)
    } else if keycode == KEY_ESCAPE {
        Some(GameInput::Back)
    } else {
        None
    }
}

/// The command a controller button stands for: the directional pad steers, A
/// selects, B goes back, Start pauses. Other buttons stand for nothing.
pub open spec fn button_command(button: i32) -> Option<GameInput> {
    if button == BUTTON_DPAD_UP {
        Some(GameInput::Up)
    } else if button == BUTTON_DPAD_DOWN {
        Some(GameInput::Down)
    } else if button == BUTTON_DPAD_LEFT {
        Some(GameInput::Left)
    } else if button == BUTTON_DPAD_RIGHT {
        Some(GameInput::Right)
    } else if button == BUTTON_A {
        Some(GameInput::Select)
    } else if button == BUTTON_B {
        Some(GameInput::Back)
    } else if button == BUTTON_START {
        Some(GameInput::Pause)
    } else {
        None
    }
}

/// Maps a key to its command, if it has one.
pub fn keycode_to_input(keycode: i32) -> (input: Option<GameInput>)
    ensures
        input == key_command(keycode),
{
    if keycode == KEY_UP || keycode == KEY_W {
        Some(GameInput::Up)
    } else if keycode == KEY_DOWN || keycode == KEY_S {
        Some(GameInput::Down)
    } else if keycode == KEY_LEFT || keycode == KEY_A {
        Some(GameInput::Left)
    } else if keycode == KEY_RIGHT || keycode == KEY_D {
        Some(GameInput::Right)
    } else if keycode == KEY_RETURN || keycode == KEY_SPACE {
        Some(GameInput::Select)
    } else if keycode == KEY_ESCAPE {
        Some(GameInput::Back)
    } else {
        None
    }
}

/// Maps a controller button to its command, if it has one.
pub fn button_to_input(button: i32) -> (input: Option<GameInput>)
    ensures
        input == button_command(button),
{
    if button == BUTTON_DPAD_UP {
        Some(GameInput::Up)
    } else if button == BUTTON_DPAD_DOWN {
        Some(GameInput::Down)
    } else if button == BUTTON_DPAD_LEFT {
        Some(GameInput::Left)
    } else if button == BUTTON_DPAD_RIGHT {
        Some(GameInput::Right)
    } else if button == BUTTON_A {
        Some(GameInput::Select)
    } else if button == BUTTON_B {
        Some(GameInput::Back)
    } else if button == BUTTON_START {
        Some(GameInput::Pause)
    } else {
        None
    }
}

} // verus!
