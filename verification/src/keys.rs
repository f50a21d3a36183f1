//! Key presses as the session reads them: a set of modifiers and a logical key.

use crate::cursor::ScrollDirection;
use vstd::prelude::*;

verus! {

/// The modifier keys held down with a key.
#[derive(Clone, Copy, Debug, PartialEq, Eq, Structural)]
pub struct Modifiers {
    pub shift: bool,
    pub control: bool,
    pub alt: bool,
    pub super_key: bool,
    pub hyper: bool,
    pub meta: bool,
}

/// A logical key. `Other` stands for every key that the session has no use
/// for.
#[derive(Clone, Copy, Debug, PartialEq, Eq, Structural)]
pub enum Key {
    Char(char),
    Backspace,
    Enter,
    Up,
    Down,
    Left,
    Right,
    Other,
}

/// One key press.
#[derive(Clone, Copy, Debug, PartialEq, Eq, Structural)]
pub struct KeyInput {
    pub modifiers: Modifiers,
    pub key: Key,
}

impl Modifiers {
    /// No modifier at all.
    pub open spec fn none() -> Modifiers {
        Modifiers {
            shift: false,
            control: false,
            alt: false,
            super_key: false,
            hyper: false,
            meta: false,
        }
    }

    /// Control and nothing else.
    pub open spec fn control() -> Modifiers {
        Modifiers {
            shift: false,
            control: true,
            alt: false,
            super_key: false,
            hyper: false,
            meta: false,
        }
    }

    /// Whether control is held and no other modifier is.
    pub fn is_control(&self) -> (only: bool)
        ensures
            only == (*self == Modifiers::control()),
    {
        self.control && !self.shift && !self.alt && !self.super_key && !self.hyper && !self.meta
    }
}

impl KeyInput {
    /// The press of `key` with no modifier.
    pub fn plain(key: Key) -> (input: KeyInput)
        ensures
            input == (KeyInput { modifiers: Modifiers::none(), key }),
    {
        KeyInput {
            modifiers: Modifiers {
                shift: false,
                control: false,
                alt: false,
                super_key: false,
                hyper: false,
                meta: false,
            },
            key,
        }
    }

    /// The press of `key` with control, and nothing else, held down.
    pub fn with_control(key: Key) -> (input: KeyInput)
        ensures
            input == (KeyInput { modifiers: Modifiers::control(), key }),
    {
        KeyInput {
            modifiers: Modifiers {
                shift: false,
                control: true,
                alt: false,
                super_key: false,
                hyper: false,
                meta: false,
            },
            key,
        }
    }

    /// Control with `c` or `C`: the command to quit.
    pub open spec fn quits(self) -> bool {
        self.modifiers == Modifiers::control() && (self.key == Key::Char('c') || self.key
            == Key::Char('C'))
    }

    /// Control with `q`: the command to leave the text entry.
    pub open spec fn cancels(self) -> bool {
        self.modifiers == Modifiers::control() && self.key == Key::Char('q')
    }

    /// The cursor move that the key asks for, whatever modifiers are held: up
    /// for the up arrow and `k`, down for the down arrow and `j`.
    pub open spec fn scrolls(self) -> Option<ScrollDirection> {
        match self.key {
            Key::Up | Key::Char('k') => Some(ScrollDirection::Up),
            Key::Down | Key::Char('j') => Some(ScrollDirection::Down),
            _ => None,
        }
    }

    /// Whether the key is the command to quit.
    pub fn is_quit(&self) -> (quit: bool)
        ensures
            quit == self.quits(),
    {
        self.modifiers.is_control() && match self.key {
            Key::Char(c) => c == 'c' || c == 'C',
            _ => false,
        }
    }

    /// Whether the key is the command to leave the text entry.
    pub fn is_cancel(&self) -> (cancel: bool)
        ensures
            cancel == self.cancels(),
    {
        self.modifiers.is_control() && match self.key {
            Key::Char(c) => c == 'q',
            _ => false,
        }
    }

    /// The cursor move that the key asks for.
    pub fn scroll_direction(&self) -> (direction: Option<ScrollDirection>)
        ensures
            direction == self.scrolls(),
    {
        match self.key {
            Key::Up => Some(ScrollDirection::Up),
            Key::Down => Some(ScrollDirection::Down),
            Key::Char(c) => if c == 'k' {
                Some(ScrollDirection::Up)
            } else if c == 'j' {
                Some(ScrollDirection::Down)
            } else {
                None
            },
            _ => None,
        }
    }
}

} // verus!
