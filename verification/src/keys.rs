//! Key presses, and the patterns that name them in a keybinding file.

use crate::text::{has_prefix, same_text, starts_with};
use vstd::prelude::*;
use vstd::string::*;

verus! {

/// One discrete event of the keyboard.
#[derive(Clone, Copy, Debug, PartialEq, Eq, Structural)]
pub enum Key {
    /// A character typed as it is.
    Char(char),
    /// A character typed with the control key held.
    Ctrl(char),
    /// A character typed with the alt key held.
    Alt(char),
    Enter,
    Esc,
    Tab,
    Backspace,
    Delete,
    Left,
    Right,
    Up,
    Down,
    Home,
    End,
    PageUp,
    PageDown,
}

impl Key {
    /// The key that a key press counts as: a line feed that was typed is
    /// the enter key, a tabulator the tab key, and every other key itself.
    pub open spec fn canonical(self) -> Key {
        match self {
            Key::Char(c) => if c == '\n' {
                Key::Enter
            } else if c == '\t' {
                Key::Tab
            } else {
                self
            },
            _ => self,
        }
    }

    /// The key that this key press counts as.
    pub fn normalized(self) -> (key: Key)
        ensures
            key == self.canonical(),
    {
        match self {
            Key::Char(c) => if c == '\n' {
                Key::Enter
            } else if c == '\t' {
                Key::Tab
            } else {
                self
            },
            _ => self,
        }
    }
}

/// The key that a name stands for.
pub open spec fn named_key(name: Seq<char>) -> Option<Key> {
    if name == "enter"@ {
        Some(Key::Enter)
    } else if name == "esc"@ {
        Some(Key::Esc)
    } else if name == "tab"@ {
        Some(Key::Tab)
    } else if name == "backspace"@ {
        Some(Key::Backspace)
    } else if name == "delete"@ {
        Some(Key::Delete)
    } else if name == "left"@ {
        Some(Key::Left)
    } else if name == "right"@ {
        Some(Key::Right)
    } else if name == "up"@ {
        Some(Key::Up)
    } else if name == "down"@ {
        Some(Key::Down)
    } else if name == "home"@ {
        Some(Key::Home)
    } else if name == "end"@ {
        Some(Key::End)
    } else if name == "pageup"@ {
        Some(Key::PageUp)
    } else if name == "pagedown"@ {
        Some(Key::PageDown)
    } else {
        None
    }
}

/// The key that a pattern stands for: a single character stands for the
/// key that typing it counts as, `ctrl+` or `alt+` before a single
/// character for that character with the modifier held, and a name for its
/// key. Anything else stands for no key.
pub open spec fn key_of(pattern: Seq<char>) -> Option<Key> {
    if pattern.len() == 1 {
        Some(Key::Char(pattern[0]).canonical())
    } else if starts_with(pattern, "ctrl+"@) && pattern.len() == "ctrl+"@.len() + 1 {
        Some(Key::Ctrl(pattern.last()))
    } else if starts_with(pattern, "alt+"@) && pattern.len() == "alt+"@.len() + 1 {
        Some(Key::Alt(pattern.last()))
    } else {
        named_key(pattern)
    }
}

/// Reads a name of a key.
pub fn parse_named_key(name: &str) -> (key: Option<Key>)
    ensures
        key == named_key(name@),
{
    if same_text(name, "enter") {
        Some(Key::Enter)
    } else if same_text(name, "esc") {
        Some(Key::Esc)
    } else if same_text(name, "tab") {
        Some(Key::Tab)
    } else if same_text(name, "backspace") {
        Some(Key::Backspace)
    } else if same_text(name, "delete") {
        Some(Key::Delete)
    } else if same_text(name, "left") {
        Some(Key::Left)
    } else if same_text(name, "right") {
        Some(Key::Right)
    } else if same_text(name, "up") {
        Some(Key::Up)
    } else if same_text(name, "down") {
        Some(Key::Down)
    } else if same_text(name, "home") {
        Some(Key::Home)
    } else if same_text(name, "end") {
        Some(Key::End)
    } else if same_text(name, "pageup") {
        Some(Key::PageUp)
    } else if same_text(name, "pagedown") {
        Some(Key::PageDown)
    } else {
        None
    }
}

/// Reads a key pattern. Returns the key that it stands for, and `None`
/// where it stands for none.
pub fn parse_key(pattern: &str) -> (key: Option<Key>)
    ensures
        key == key_of(pattern@),
{
    let len = pattern.unicode_len();
    if len == 1 {
        return Some(Key::Char(pattern.get_char(0)).normalized());
    }
    let ctrl = "ctrl+";
    let alt = "alt+";
    let ctrl_len = ctrl.unicode_len();
    let alt_len = alt.unicode_len();
    if len >= 1 && len - 1 == ctrl_len && has_prefix(pattern, ctrl) {
        Some(Key::Ctrl(pattern.get_char(len - 1)))
    } else if len >= 1 && len - 1 == alt_len && has_prefix(pattern, alt) {
        Some(Key::Alt(pattern.get_char(len - 1)))
    } else {
        parse_named_key(pattern)
    }
}

} // verus!
