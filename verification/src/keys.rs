//! What a key press means, in each of the two modes.

use vstd::prelude::*;
use crate::ui::AppMode;

verus! {

/// A key of the keyboard.
#[derive(Debug, Clone, Copy, PartialEq, Eq, Structural)]
pub enum Key {
    Char(char),
    Backspace,
    Enter,
    Esc,
    Up,
    Down,
    Left,
    Right,
    Home,
    End,
    Other,
}

/// What the user asks for with a key press.
#[derive(Debug, Clone, Copy, PartialEq, Eq, Structural)]
pub enum Intent {
    /// Leave the program.
    Quit,
    /// Add a character to the address.
    Type(char),
    /// Take the last character off the address.
    Erase,
    /// Load the address typed.
    Submit,
    /// Move the cursor one row up.
    Up,
    /// Move the cursor one row down.
    Down,
    /// Move the cursor to the first row.
    Top,
    /// Move the cursor to the last row.
    Bottom,
    /// Flip the mark of the row under the cursor.
    Toggle,
    /// Mark every row.
    SelectAll,
    /// Mark no row.
    SelectNone,
    /// Go back to the listing above, or to the address line.
    Back,
    /// Open the directory under the cursor.
    Open,
    /// Download the rows marked.
    Download,
    /// Nothing.
    Ignore,
}

/// The meaning of `key` in `mode`; `ctrl` says whether Control was held.
pub open spec fn intent_of(mode: AppMode, key: Key, ctrl: bool) -> Intent {
    if key == Key::Char('c') && ctrl {
        Intent::Quit
    } else {
        match mode {
            AppMode::Input => match key {
                Key::Char(c) => Intent::Type(c),
                Key::Backspace => Intent::Erase,
                Key::Esc => Intent::Quit,
                Key::Enter => Intent::Submit,
                _ => Intent::Ignore,
            },
            AppMode::Browse => match key {
                Key::Up => Intent::Up,
                Key::Down => Intent::Down,
                Key::Home => Intent::Top,
                Key::End => Intent::Bottom,
                Key::Backspace | Key::Left => Intent::Back,
                Key::Enter | Key::Right => Intent::Open,
                Key::Char(c) => if c == 'q' || c == 'Q' {
                    Intent::Quit
                } else if c == 'g' {
                    Intent::Top
                } else if c == 'G' {
                    Intent::Bottom
                } else if c == ' ' {
                    Intent::Toggle
                } else if c == 'a' {
                    Intent::SelectAll
                } else if c == 'u' {
                    Intent::SelectNone
                } else if c == 'h' {
                    Intent::Back
                } else if c == 'l' {
                    Intent::Open
                } else if c == 'd' || c == 'D' {
                    Intent::Download
                } else {
                    Intent::Ignore
                },
                _ => Intent::Ignore,
            },
        }
    }
}

/// Reads a key press.
pub fn read_key(mode: AppMode, key: Key, ctrl: bool) -> (r: Intent)
    ensures
        r == intent_of(mode, key, ctrl),
{
    if let Key::Char(c) = key {
        if c == 'c' && ctrl {
            return Intent::Quit;
        }
    }
    match mode {
        AppMode::Input => match key {
            Key::Char(c) => Intent::Type(c),
            Key::Backspace => Intent::Erase,
            Key::Esc => Intent::Quit,
            Key::Enter => Intent::Submit,
            _ => Intent::Ignore,
        },
        AppMode::Browse => match key {
            Key::Up => Intent::Up,
            Key::Down => Intent::Down,
            Key::Home => Intent::Top,
            Key::End => Intent::Bottom,
            Key::Backspace => Intent::Back,
            Key::Left => Intent::Back,
            Key::Enter => Intent::Open,
            Key::Right => Intent::Open,
            Key::Char(c) => if c == 'q' || c == 'Q' {
                Intent::Quit
            } else if c == 'g' {
                Intent::Top
            } else if c == 'G' {
                Intent::Bottom
            } else if c == ' ' {
                Intent::Toggle
            } else if c == 'a' {
                Intent::SelectAll
            } else if c == 'u' {
                Intent::SelectNone
            } else if c == 'h' {
                Intent::Back
            } else if c == 'l' {
                Intent::Open
            } else if c == 'd' || c == 'D' {
                Intent::Download
            } else {
                Intent::Ignore
            },
            _ => Intent::Ignore,
        },
    }
}

} // verus!
