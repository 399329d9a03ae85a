//! The raw input vocabulary clients report: the mouse buttons and the few
//! keys the game binds.

use vstd::prelude::*;

verus! {

/// A mouse button; only the left and right ones carry game meaning.
#[derive(Copy, Clone, PartialEq, Eq, Structural, Debug, Hash)]
pub enum MouseButton {
    Left,
    Right,
    Middle,
}

/// A key the game binds: terrain modes, placement confirmation, selection.
#[derive(Copy, Clone, PartialEq, Eq, Structural, Debug, Hash)]
pub enum KeyCode {
    /// Toggles the attack selection.
    Space,
    /// Confirms the end of terrain placement.
    Return,
    /// Switches the placement mode to mountains.
    M,
    /// Switches the placement mode to water.
    W,
}

/// One raw input a client reports alongside a grid position.
#[derive(Copy, Clone, PartialEq, Eq, Structural, Debug, Hash)]
pub enum GameInput {
    Mouse(MouseButton),
    Keyboard(KeyCode),
}

} // verus!
