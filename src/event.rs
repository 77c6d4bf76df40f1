//! The input events that a session reads, held as plain values.

use vstd::prelude::*;

verus! {

/// The modifier keys held while a key was pressed.
#[derive(Clone, Copy, Debug, PartialEq, Eq, Structural)]
pub struct Modifiers {
    pub shift: bool,
    pub control: bool,
    pub alt: bool,
    pub super_key: bool,
    pub hyper: bool,
    pub meta: bool,
}

/// The key of a key event: a character, or any key that produces none.
#[derive(Clone, Copy, Debug, PartialEq, Eq, Structural)]
pub enum KeyCode {
    Char(char),
    Other,
}

/// A key press, with the modifiers held at the time.
#[derive(Clone, Copy, Debug, PartialEq, Eq, Structural)]
pub struct KeyEvent {
    pub code: KeyCode,
    pub modifiers: Modifiers,
}

/// An input event of the terminal: a key, or anything else (focus, mouse,
/// resize, paste), which a session never acts on.
#[derive(Clone, Copy, Debug, PartialEq, Eq, Structural)]
pub enum Event {
    Key(KeyEvent),
    Other,
}

impl Modifiers {
    /// No modifier held.
    pub open spec fn is_none(self) -> bool {
        !self.shift && !self.control && !self.alt && !self.super_key && !self.hyper && !self.meta
    }

    /// Control held, and nothing else.
    pub open spec fn is_control_only(self) -> bool {
        !self.shift && self.control && !self.alt && !self.super_key && !self.hyper && !self.meta
    }

    /// The empty set of modifiers.
    pub fn none() -> (r: Modifiers)
        ensures
            r.is_none(),
    {
        Modifiers {
            shift: false,
            control: false,
            alt: false,
            super_key: false,
            hyper: false,
            meta: false,
        }
    }

    /// Control alone.
    pub fn control() -> (r: Modifiers)
        ensures
            r.is_control_only(),
    {
        Modifiers { control: true, ..Modifiers::none() }
    }

    /// Whether no modifier is held.
    pub fn is_empty(&self) -> (r: bool)
        ensures
            r == self.is_none(),
    {
        !self.shift && !self.control && !self.alt && !self.super_key && !self.hyper && !self.meta
    }

    /// Whether control is held, and nothing else.
    pub fn is_control(&self) -> (r: bool)
        ensures
            r == self.is_control_only(),
    {
        !self.shift && self.control && !self.alt && !self.super_key && !self.hyper && !self.meta
    }
}

impl KeyEvent {
    /// A key event for `c` with the given modifiers.
    pub fn new(c: char, modifiers: Modifiers) -> (r: KeyEvent)
        ensures
            r.code == KeyCode::Char(c),
            r.modifiers == modifiers,
    {
        KeyEvent { code: KeyCode::Char(c), modifiers }
    }
}

} // verus!
