//! The terminal modes a session changes, and what putting them back takes.

use vstd::prelude::*;

verus! {

/// The terminal modes that a session has changed: raw input, and a hidden
/// cursor.
#[derive(Clone, Copy, Debug, PartialEq, Eq, Structural)]
pub struct Modes {
    pub raw: bool,
    pub cursor_hidden: bool,
}

/// The commands that put the terminal back as it was.
#[derive(Clone, Copy, Debug, PartialEq, Eq, Structural)]
pub struct Restore {
    pub disable_raw_mode: bool,
    pub show_cursor: bool,
}

/// The commands that restoring `m` takes: each mode that was changed is
/// put back, and nothing else.
pub open spec fn restore_of(m: Modes) -> Restore {
    Restore { disable_raw_mode: m.raw, show_cursor: m.cursor_hidden }
}

/// The terminal as it is outside a session: cooked input, cursor shown.
pub open spec fn cooked() -> Modes {
    Modes { raw: false, cursor_hidden: false }
}

impl Modes {
    /// The modes before a session changes anything.
    pub fn new() -> (r: Modes)
        ensures
            r == cooked(),
    {
        Modes { raw: false, cursor_hidden: false }
    }

    /// Records that raw input mode was entered.
    pub fn entered_raw(&mut self)
        ensures
            *final(self) == (Modes { raw: true, ..*old(self) }),
    {
        self.raw = true;
    }

    /// Records that the cursor was hidden.
    pub fn hid_cursor(&mut self)
        ensures
            *final(self) == (Modes { cursor_hidden: true, ..*old(self) }),
    {
        self.cursor_hidden = true;
    }

    /// Hands out the commands that put the terminal back, and records that
    /// they were given: asked again, it hands out none.
    pub fn restore(&mut self) -> (r: Restore)
        ensures
            r == restore_of(*old(self)),
            *final(self) == cooked(),
    {
        let r = Restore { disable_raw_mode: self.raw, show_cursor: self.cursor_hidden };
        self.raw = false;
        self.cursor_hidden = false;
        r
    }
}

/// Each mode is put back exactly once: the first restore gives back raw
/// mode and the cursor if they were changed, and a second one gives nothing.
pub proof fn lemma_restored_once(m: Modes)
    ensures
        restore_of(m).disable_raw_mode == m.raw,
        restore_of(m).show_cursor == m.cursor_hidden,
        restore_of(cooked()) == (Restore { disable_raw_mode: false, show_cursor: false }),
{
}

} // verus!
