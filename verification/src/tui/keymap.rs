//! Keys and what they mean in every view.

use vstd::prelude::*;

verus! {

/// A key of the keyboard, as far as the views tell keys apart.
#[derive(Clone, Copy, Debug, PartialEq, Eq, Structural)]
pub enum Key {
    Up,
    Down,
    Left,
    Right,
    Enter,
    Esc,
    Tab,
    Char(char),
    Other,
}

/// What a key asks for.
#[derive(Clone, Copy, Debug, PartialEq, Eq, Structural)]
pub enum KeyCommand {
    Up,
    Down,
    Select,
    Back,
    Quit,
    /// A key without a meaning of its own in every view.
    Key(Key),
    /// An event that is no key.
    Unknown,
}

/// What `key` asks for.
pub open spec fn spec_key_command(key: Key) -> KeyCommand {
    match key {
        Key::Up => KeyCommand::Up,
        Key::Down => KeyCommand::Down,
        Key::Enter => KeyCommand::Select,
        Key::Right => KeyCommand::Select,
        Key::Left => KeyCommand::Back,
        Key::Esc => KeyCommand::Quit,
        Key::Char(c) => if c == 'k' || c == 'p' {
            KeyCommand::Up
        } else if c == 'j' || c == 'n' {
            KeyCommand::Down
        } else if c == 'l' || c == 'f' {
            KeyCommand::Select
        } else if c == 'h' || c == 'b' {
            KeyCommand::Back
        } else if c == 'q' {
            KeyCommand::Quit
        } else {
            KeyCommand::Key(key)
        },
        _ => KeyCommand::Key(key),
    }
}

/// What `key` asks for: arrows and their letters move, Enter and Right
/// select, Left goes back, Esc and `q` quit; every other key is handed on.
pub fn key_command(key: Key) -> (command: KeyCommand)
    ensures
        command == spec_key_command(key),
{
    match key {
        Key::Up => KeyCommand::Up,
        Key::Down => KeyCommand::Down,
        Key::Enter => KeyCommand::Select,
        Key::Right => KeyCommand::Select,
        Key::Left => KeyCommand::Back,
        Key::Esc => KeyCommand::Quit,
        Key::Char(c) => {
            if c == 'k' || c == 'p' {
                KeyCommand::Up
            } else if c == 'j' || c == 'n' {
                KeyCommand::Down
            } else if c == 'l' || c == 'f' {
                KeyCommand::Select
            } else if c == 'h' || c == 'b' {
                KeyCommand::Back
            } else if c == 'q' {
                KeyCommand::Quit
            } else {
                KeyCommand::Key(key)
            }
        },
        _ => KeyCommand::Key(key),
    }
}

/// What an event of the terminal asks for: a key's command, or `Unknown`
/// for an event that is no key.
pub fn read_command(key: Option<Key>) -> (command: KeyCommand)
    ensures
        command == match key {
            Some(k) => spec_key_command(k),
            None => KeyCommand::Unknown,
        },
{
    match key {
        Some(k) => key_command(k),
        None => KeyCommand::Unknown,
    }
}

} // verus!
