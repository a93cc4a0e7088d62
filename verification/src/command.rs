//! Input commands, abstracted away from the terminal backend's key codes.
use vstd::prelude::*;

verus! {

/// A key on the keyboard, as far as the game cares to distinguish them.
#[derive(Clone, Copy, Debug, PartialEq, Eq, Structural)]
pub enum KeyCode {
    Char(char),
    Up,
    Down,
    Left,
    Right,
    Enter,
    Home,
    End,
    Tab,
    BackTab,
    Esc,
    Other,
}

/// The modifier state of a key press: no modifiers held, exactly the
/// control key held, or any other combination.
#[derive(Clone, Copy, Debug, PartialEq, Eq, Structural)]
pub enum Modifiers {
    Empty,
    Control,
    Other,
}

/// A key press: the key and the modifiers held with it.
#[derive(Clone, Copy, Debug, PartialEq, Eq, Structural)]
pub struct KeyEvent {
    pub mods: Modifiers,
    pub code: KeyCode,
}

/// An input event, as far as the game cares to distinguish them.
#[derive(Clone, Copy, Debug, PartialEq, Eq, Structural)]
pub enum InputEvent {
    /// A key was pressed.
    Key(KeyEvent),
    /// The terminal lost input focus.
    FocusLost,
    /// Anything else (a key release, a resize, and so on).
    Other,
}

/// An enum of input commands, (mostly) abstracted away from the key codes
/// that produce them.
#[derive(Clone, Copy, Debug, PartialEq, Eq, Structural)]
pub enum Command {
    /// Quit the program (Ctrl-C).
    Quit,
    /// Move up (Up, `w`, `k`, `8`).
    Up,
    /// Move down (Down, `s`, `j`, `2`).
    Down,
    /// Move left (Left, `a`, `h`, `4`).
    Left,
    /// Move right (Right, `d`, `l`, `6`).
    Right,
    /// Select/activate the current button or menu item.
    Enter,
    /// The user pressed the spacebar.
    Space,
    /// Go to the first item in the list (Home).
    Home,
    /// Go to the last item in the list (End).
    End,
    /// Go to the next item, circling around at the end (Tab).
    Next,
    /// Go to the previous item, circling around at the beginning
    /// (Shift+Tab).
    Prev,
    /// The user pressed the Escape key.
    Esc,
    /// The user pressed the `m` key.
    M,
    /// The user pressed the `p` key.
    P,
    /// The user pressed the `q` key.
    Q,
    /// The user pressed the `r` key.
    R,
}

/// The command, if any, that a key press produces.
pub open spec fn spec_from_key_event(ev: KeyEvent) -> Option<Command> {
    match (ev.mods, ev.code) {
        (Modifiers::Control, KeyCode::Char(c)) => if c == 'c' {
            Some(Command::Quit)
        } else {
            spec_any_modifier_command(ev.code)
        },
        (Modifiers::Empty, KeyCode::Char(c)) => spec_plain_char_command(c),
        (Modifiers::Empty, KeyCode::Up) => Some(Command::Up),
        (Modifiers::Empty, KeyCode::Down) => Some(Command::Down),
        (Modifiers::Empty, KeyCode::Left) => Some(Command::Left),
        (Modifiers::Empty, KeyCode::Right) => Some(Command::Right),
        _ => spec_any_modifier_command(ev.code),
    }
}

/// Commands produced by an unmodified character key.
pub open spec fn spec_plain_char_command(c: char) -> Option<Command> {
    if c == 'w' || c == 'k' || c == '8' {
        Some(Command::Up)
    } else if c == 's' || c == 'j' || c == '2' {
        Some(Command::Down)
    } else if c == 'a' || c == 'h' || c == '4' {
        Some(Command::Left)
    } else if c == 'd' || c == 'l' || c == '6' {
        Some(Command::Right)
    } else if c == ' ' {
        Some(Command::Space)
    } else if c == 'm' {
        Some(Command::M)
    } else if c == 'p' {
        Some(Command::P)
    } else if c == 'q' {
        Some(Command::Q)
    } else if c == 'r' {
        Some(Command::R)
    } else {
        None
    }
}

/// Commands produced regardless of the modifiers held.
pub open spec fn spec_any_modifier_command(code: KeyCode) -> Option<Command> {
    match code {
        KeyCode::Enter => Some(Command::Enter),
        KeyCode::Home => Some(Command::Home),
        KeyCode::End => Some(Command::End),
        KeyCode::Tab => Some(Command::Next),
        KeyCode::BackTab => Some(Command::Prev),
        KeyCode::Esc => Some(Command::Esc),
        _ => None,
    }
}

impl Command {
    /// The command, if any, for the given key press.
    pub fn from_key_event(ev: KeyEvent) -> (r: Option<Command>)
        ensures
            r == spec_from_key_event(ev),
    {
        match (ev.mods, ev.code) {
            (Modifiers::Control, KeyCode::Char(c)) => {
                if c == 'c' {
                    Some(Command::Quit)
                } else {
                    Self::any_modifier_command(ev.code)
                }
            }
            (Modifiers::Empty, KeyCode::Char(c)) => {
                if c == 'w' || c == 'k' || c == '8' {
                    Some(Command::Up)
                } else if c == 's' || c == 'j' || c == '2' {
                    Some(Command::Down)
                } else if c == 'a' || c == 'h' || c == '4' {
                    Some(Command::Left)
                } else if c == 'd' || c == 'l' || c == '6' {
                    Some(Command::Right)
                } else if c == ' ' {
                    Some(Command::Space)
                } else if c == 'm' {
                    Some(Command::M)
                } else if c == 'p' {
                    Some(Command::P)
                } else if c == 'q' {
                    Some(Command::Q)
                } else if c == 'r' {
                    Some(Command::R)
                } else {
                    None
                }
            }
            (Modifiers::Empty, KeyCode::Up) => Some(Command::Up),
            (Modifiers::Empty, KeyCode::Down) => Some(Command::Down),
            (Modifiers::Empty, KeyCode::Left) => Some(Command::Left),
            (Modifiers::Empty, KeyCode::Right) => Some(Command::Right),
            _ => Self::any_modifier_command(ev.code),
        }
    }

    /// The command, if any, that `code` produces regardless of modifiers.
    fn any_modifier_command(code: KeyCode) -> (r: Option<Command>)
        ensures
            r == spec_any_modifier_command(code),
    {
        match code {
            KeyCode::Enter => Some(Command::Enter),
            KeyCode::Home => Some(Command::Home),
            KeyCode::End => Some(Command::End),
            KeyCode::Tab => Some(Command::Next),
            KeyCode::BackTab => Some(Command::Prev),
            KeyCode::Esc => Some(Command::Esc),
            _ => None,
        }
    }
}

} // verus!
