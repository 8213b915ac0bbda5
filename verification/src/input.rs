//! Plain models of the values the user-input source delivers.
//!
//! The terminal backend reads raw key presses on its own thread; the
//! consumer loop only ever sees the values modeled here, so the logic
//! that reacts to them can be verified.

use vstd::prelude::*;

verus! {

/// Whether the input reader thread is currently delivering events or
/// has handed the terminal to an external program.
#[derive(Clone, Copy, Debug, PartialEq, Eq, Structural)]
pub enum InputState {
    Paused,
    Polling,
}

/// A key, reduced to what the components decide on.
#[derive(Clone, Copy, Debug, PartialEq, Eq, Structural)]
pub enum KeyCode {
    Char(char),
    Enter,
    Esc,
    Backspace,
    Delete,
    Left,
    Right,
    Up,
    Down,
    Home,
    End,
    PageUp,
    PageDown,
    Other,
}

/// One key press: the key plus whether the control modifier was held.
#[derive(Clone, Copy, Debug, PartialEq, Eq, Structural)]
pub struct KeyInput {
    pub code: KeyCode,
    pub ctrl: bool,
}

impl KeyInput {
    /// A plain key press without the control modifier.
    pub fn plain(code: KeyCode) -> (r: KeyInput)
        ensures
            r == (KeyInput { code, ctrl: false }),
    {
        KeyInput { code, ctrl: false }
    }
}

/// What the input source puts on its channel: a key press, or a state
/// change of the reader itself.
#[derive(Clone, Copy, Debug, PartialEq, Eq, Structural)]
pub enum InputEvent {
    Input(KeyInput),
    State(InputState),
}

/// The key bindings the verified components consult. Only the bindings
/// their logic reads are modeled.
#[derive(Clone, Copy, Debug, PartialEq, Eq, Structural)]
pub struct KeyConfig {
    pub exit_popup: KeyInput,
    pub enter: KeyInput,
    pub move_up: KeyInput,
    pub move_down: KeyInput,
    pub home: KeyInput,
    pub end: KeyInput,
    pub page_up: KeyInput,
    pub page_down: KeyInput,
}

impl Default for KeyConfig {
    /// The stock bindings: escape closes a popup, enter confirms, and
    /// the navigation keys move as labeled.
    fn default() -> (r: KeyConfig)
        ensures
            r == KeyConfig::spec_default(),
    {
        KeyConfig {
            exit_popup: KeyInput { code: KeyCode::Esc, ctrl: false },
            enter: KeyInput { code: KeyCode::Enter, ctrl: false },
            move_up: KeyInput { code: KeyCode::Up, ctrl: false },
            move_down: KeyInput { code: KeyCode::Down, ctrl: false },
            home: KeyInput { code: KeyCode::Home, ctrl: false },
            end: KeyInput { code: KeyCode::End, ctrl: false },
            page_up: KeyInput { code: KeyCode::PageUp, ctrl: false },
            page_down: KeyInput { code: KeyCode::PageDown, ctrl: false },
        }
    }
}

impl KeyConfig {
    /// The value `Default::default` returns.
    pub open spec fn spec_default() -> KeyConfig {
        KeyConfig {
            exit_popup: KeyInput { code: KeyCode::Esc, ctrl: false },
            enter: KeyInput { code: KeyCode::Enter, ctrl: false },
            move_up: KeyInput { code: KeyCode::Up, ctrl: false },
            move_down: KeyInput { code: KeyCode::Down, ctrl: false },
            home: KeyInput { code: KeyCode::Home, ctrl: false },
            end: KeyInput { code: KeyCode::End, ctrl: false },
            page_up: KeyInput { code: KeyCode::PageUp, ctrl: false },
            page_down: KeyInput { code: KeyCode::PageDown, ctrl: false },
        }
    }
}

} // verus!
