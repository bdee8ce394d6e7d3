//! Key presses and the actions they stand for.

use vstd::prelude::*;

verus! {

/// What the user asks for.
#[derive(Clone, Copy, Debug, PartialEq, Eq, Structural)]
pub enum Action {
    Quit,
    MoveUp,
    MoveDown,
    Enter,
    Back,
    Refresh,
    NextPage,
    PrevPage,
    ToggleLogs,
    Rerun,
    Cancel,
    OpenInBrowser,
    Search,
    /// The key has no binding.
    Noop,
}

/// The key that was pressed, as far as the bindings tell keys apart.
#[derive(Clone, Copy, Debug, PartialEq, Eq, Structural)]
pub enum KeyCode {
    Char(char),
    Up,
    Down,
    Left,
    Right,
    Enter,
    Esc,
    Backspace,
    /// A function key, by its number.
    F(u8),
    /// Any key without a binding of its own.
    Other,
}

/// One key press.
#[derive(Clone, Copy, Debug, PartialEq, Eq, Structural)]
pub struct KeyEvent {
    pub code: KeyCode,
    /// Whether the control key was held.
    pub control: bool,
}

/// The action bound to a key. Control-C always quits; beside it each action
/// has a letter, and most have a second key.
pub open spec fn action_of(key: KeyEvent) -> Action {
    if key.control && key.code == KeyCode::Char('c') {
        Action::Quit
    } else {
        match key.code {
            KeyCode::Char(c) => if c == 'q' {
                Action::Quit
            } else if c == 'k' {
                Action::MoveUp
            } else if c == 'j' {
                Action::MoveDown
            } else if c == 'l' {
                Action::Enter
            } else if c == 'h' {
                Action::Back
            } else if c == 'r' {
                Action::Refresh
            } else if c == 'n' {
                Action::NextPage
            } else if c == 'p' {
                Action::PrevPage
            } else if c == 'L' {
                Action::ToggleLogs
            } else if c == 'R' {
                Action::Rerun
            } else if c == 'C' {
                Action::Cancel
            } else if c == 'o' {
                Action::OpenInBrowser
            } else if c == '/' {
                Action::Search
            } else {
                Action::Noop
            },
            KeyCode::Up => Action::MoveUp,
            KeyCode::Down => Action::MoveDown,
            KeyCode::Enter => Action::Enter,
            KeyCode::Esc => Action::Back,
            KeyCode::Backspace => Action::Back,
            KeyCode::Right => Action::NextPage,
            KeyCode::Left => Action::PrevPage,
            KeyCode::F(_) => Action::Noop,
            KeyCode::Other => Action::Noop,
        }
    }
}

/// Maps a key press to the action bound to it.
pub fn map_key_to_action(key: KeyEvent) -> (action: Action)
    ensures
        action == action_of(key),
{
    match key.code {
        KeyCode::Char(c) => {
            if key.control && c == 'c' {
                Action::Quit
            } else if c == 'q' {
                Action::Quit
            } else if c == 'k' {
                Action::MoveUp
            } else if c == 'j' {
                Action::MoveDown
            } else if c == 'l' {
                Action::Enter
            } else if c == 'h' {
                Action::Back
            } else if c == 'r' {
                Action::Refresh
            } else if c == 'n' {
                Action::NextPage
            } else if c == 'p' {
                Action::PrevPage
            } else if c == 'L' {
                Action::ToggleLogs
            } else if c == 'R' {
                Action::Rerun
            } else if c == 'C' {
                Action::Cancel
            } else if c == 'o' {
                Action::OpenInBrowser
            } else if c == '/' {
                Action::Search
            } else {
                Action::Noop
            }
        },
        KeyCode::Up => Action::MoveUp,
        KeyCode::Down => Action::MoveDown,
        KeyCode::Enter => Action::Enter,
        KeyCode::Esc | KeyCode::Backspace => Action::Back,
        KeyCode::Right => Action::NextPage,
        KeyCode::Left => Action::PrevPage,
        KeyCode::F(_) | KeyCode::Other => Action::Noop,
    }
}

} // verus!
