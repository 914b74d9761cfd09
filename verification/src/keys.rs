//! Keys and what they ask for.
//!
//! A list screen moves its selection with `j` and `k` or the arrows, confirms
//! with Enter and quits on `q` or Escape. A detail screen has one way out:
//! back to its list, on `q`, Escape or `b`.

use vstd::prelude::*;

verus! {

/// A key, as far as the screens tell keys apart.
#[derive(Clone, Copy, Debug, PartialEq, Eq, Structural)]
pub enum Key {
    Char(char),
    Esc,
    Enter,
    Up,
    Down,
    Other,
}

/// What the operator asks for.
#[derive(Clone, Copy, Debug, PartialEq, Eq, Structural)]
pub enum Intent {
    Next,
    Previous,
    Confirm,
    Back,
    Quit,
}

/// What `key` asks for on a list screen.
pub open spec fn list_intent(key: Key) -> Option<Intent> {
    if key == Key::Esc || key == Key::Char('q') {
        Some(Intent::Quit)
    } else if key == Key::Down || key == Key::Char('j') {
        Some(Intent::Next)
    } else if key == Key::Up || key == Key::Char('k') {
        Some(Intent::Previous)
    } else if key == Key::Enter {
        Some(Intent::Confirm)
    } else {
        None
    }
}

/// What `key` asks for on a detail screen.
pub open spec fn detail_intent(key: Key) -> Option<Intent> {
    if key == Key::Esc || key == Key::Char('q') || key == Key::Char('b') {
        Some(Intent::Back)
    } else {
        None
    }
}

/// What `key` asks for on a list screen.
pub fn decode_in_list(key: Key) -> (intent: Option<Intent>)
    ensures
        intent == list_intent(key),
{
    match key {
        Key::Char(c) => if c == 'q' {
            Some(Intent::Quit)
        } else if c == 'j' {
            Some(Intent::Next)
        } else if c == 'k' {
            Some(Intent::Previous)
        } else {
            None
        },
        Key::Esc => Some(Intent::Quit),
        Key::Down => Some(Intent::Next),
        Key::Up => Some(Intent::Previous),
        Key::Enter => Some(Intent::Confirm),
        Key::Other => None,
    }
}

/// What `key` asks for on a detail screen.
pub fn decode_in_detail(key: Key) -> (intent: Option<Intent>)
    ensures
        intent == detail_intent(key),
{
    match key {
        Key::Char(c) => if c == 'q' || c == 'b' {
            Some(Intent::Back)
        } else {
            None
        },
        Key::Esc => Some(Intent::Back),
        _ => None,
    }
}

} // verus!
