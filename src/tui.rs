//! The session's decisions: which events end a read, with which key, and
//! where the screen is cleared afterwards.

use vstd::prelude::*;

use crate::event::{Event, KeyCode, KeyEvent, Modifiers};

verus! {

/// What a session does with one event.
#[derive(Clone, Copy, Debug, PartialEq, Eq)]
pub enum Step {
    /// The event is ignored: read the next one.
    Wait,
    /// The read is over and hands back `key` (`None`: the session should
    /// end), after moving the cursor to `move_to` and clearing the screen
    /// from there down.
    Finish { key: Option<char>, move_to: (u16, u16) },
}

/// What a key event decides, if anything: `Some(None)` ends the session,
/// `Some(Some(c))` hands back `c`, `None` leaves the event ignored.
pub open spec fn decision(quit_on: Seq<char>, e: Event) -> Option<Option<char>> {
    match e {
        Event::Key(k) => match k.code {
            KeyCode::Char(c) => {
                if k.modifiers.is_none() && quit_on.contains(c) {
                    Some(None)
                } else if k.modifiers.is_control_only() && (c == 'c' || c == 'd') {
                    Some(None)
                } else if k.modifiers.is_none() {
                    Some(Some(c))
                } else {
                    None
                }
            },
            KeyCode::Other => None,
        },
        Event::Other => None,
    }
}

/// The step taken on `e` by a session with quit keys `quit_on` that started
/// with the cursor at `position`.
pub open spec fn step_of(quit_on: Seq<char>, position: (u16, u16), e: Event) -> Step {
    match decision(quit_on, e) {
        Some(key) => Step::Finish { key, move_to: position },
        None => Step::Wait,
    }
}

/// Reading `events` from index `from` on: how many of them are consumed,
/// and the step that ends the read (`Step::Wait` if none does).
pub open spec fn read_from(quit_on: Seq<char>, position: (u16, u16), events: Seq<Event>, from: nat) -> (
    nat,
    Step,
)
    decreases events.len() - from,
{
    if from >= events.len() {
        (events.len(), Step::Wait)
    } else {
        let s = step_of(quit_on, position, events[from as int]);
        if s is Finish {
            (from + 1, s)
        } else {
            read_from(quit_on, position, events, from + 1)
        }
    }
}

/// A terminal session's state: the cursor position recorded when it began,
/// and the characters that end it.
#[derive(Debug)]
pub struct Tui {
    position: (u16, u16),
    quit_on: Vec<char>,
}

impl Tui {
    /// The cursor position recorded at the start of the session.
    pub closed spec fn start_position(&self) -> (u16, u16) {
        self.position
    }

    /// The characters that end the session when pressed with no modifier.
    pub closed spec fn quit_keys(&self) -> Seq<char> {
        self.quit_on@
    }

    /// A session that ends on any of `quit_on`, with the cursor at `position`.
    pub fn new(quit_on: Vec<char>, position: (u16, u16)) -> (r: Tui)
        ensures
            r.quit_keys() == quit_on@,
            r.start_position() == position,
    {
        Tui { position, quit_on }
    }

    /// The cursor position recorded at the start of the session.
    pub fn position(&self) -> (r: (u16, u16))
        ensures
            r == self.start_position(),
    {
        self.position
    }

    /// Whether `c` is one of the quit keys.
    pub fn is_quit_key(&self, c: char) -> (r: bool)
        ensures
            r == self.quit_keys().contains(c),
    {
        let mut i: usize = 0;
        while i < self.quit_on.len()
            invariant
                0 <= i <= self.quit_on@.len(),
                forall|j: int| 0 <= j < i ==> self.quit_on@[j] != c,
            decreases self.quit_on@.len() - i,
        {
            if self.quit_on[i] == c {
                return true;
            }
            i = i + 1;
        }
        false
    }

    /// The step this session takes on `event`.
    pub fn next_key(&self, event: &Event) -> (r: Step)
        ensures
            r == step_of(self.quit_keys(), self.start_position(), *event),
            r matches Step::Finish { move_to, .. } ==> move_to == self.start_position(),
    {
        let key = match event {
            Event::Key(k) => match k.code {
                KeyCode::Char(c) => {
                    if k.modifiers.is_empty() && self.is_quit_key(c) {
                        Some(None)
                    } else if k.modifiers.is_control() && (c == 'c' || c == 'd') {
                        Some(None)
                    } else if k.modifiers.is_empty() {
                        Some(Some(c))
                    } else {
                        None
                    }
                },
                KeyCode::Other => None,
            },
            Event::Other => None,
        };
        match key {
            Some(key) => Step::Finish { key, move_to: self.position },
            None => Step::Wait,
        }
    }

    /// Reads from `events` as a blocking read would: events that decide
    /// nothing are consumed, and the first that decides ends the read.
    /// Returns how many events were consumed and the step that ended the
    /// read, or `Step::Wait` when none of them did.
    pub fn read_key(&self, events: &Vec<Event>) -> (r: (usize, Step))
        ensures
            (r.0 as nat, r.1) == read_from(self.quit_keys(), self.start_position(), events@, 0),
    {
        let mut i: usize = 0;
        while i < events.len()
            invariant
                0 <= i <= events@.len(),
                read_from(self.quit_keys(), self.start_position(), events@, 0) == read_from(
                    self.quit_keys(),
                    self.start_position(),
                    events@,
                    i as nat,
                ),
            decreases events@.len() - i,
        {
            let s = self.next_key(&events[i]);
            if let Step::Finish { .. } = s {
                return (i + 1, s);
            }
            i = i + 1;
        }
        (i, Step::Wait)
    }
}

/// A quit key pressed with no modifier ends the session.
pub proof fn lemma_quit_key_ends(quit_on: Seq<char>, position: (u16, u16), c: char, m: Modifiers)
    requires
        quit_on.contains(c),
        m.is_none(),
    ensures
        step_of(quit_on, position, Event::Key(KeyEvent { code: KeyCode::Char(c), modifiers: m }))
            == (Step::Finish { key: None, move_to: position }),
{
}

/// Any other character pressed with no modifier is handed back.
pub proof fn lemma_plain_key_returned(quit_on: Seq<char>, position: (u16, u16), c: char, m: Modifiers)
    requires
        !quit_on.contains(c),
        m.is_none(),
    ensures
        step_of(quit_on, position, Event::Key(KeyEvent { code: KeyCode::Char(c), modifiers: m }))
            == (Step::Finish { key: Some(c), move_to: position }),
{
}

/// Control+C and Control+D end the session, whatever the quit keys are.
pub proof fn lemma_interrupt_ends(quit_on: Seq<char>, position: (u16, u16), c: char, m: Modifiers)
    requires
        c == 'c' || c == 'd',
        m.is_control_only(),
    ensures
        step_of(quit_on, position, Event::Key(KeyEvent { code: KeyCode::Char(c), modifiers: m }))
            == (Step::Finish { key: None, move_to: position }),
{
}

/// Events that are not keys, keys that produce no character, and
/// characters under modifiers other than none or the interrupt combination
/// are ignored.
pub proof fn lemma_other_events_ignored(quit_on: Seq<char>, position: (u16, u16), e: Event)
    requires
        match e {
            Event::Key(k) => match k.code {
                KeyCode::Char(c) => !k.modifiers.is_none() && !(k.modifiers.is_control_only() && (c
                    == 'c' || c == 'd')),
                KeyCode::Other => true,
            },
            Event::Other => true,
        },
    ensures
        step_of(quit_on, position, e) == Step::Wait,
{
}

proof fn lemma_skip_ignored(
    quit_on: Seq<char>,
    position: (u16, u16),
    events: Seq<Event>,
    ignored: nat,
    from: nat,
)
    requires
        from <= ignored <= events.len(),
        forall|j: int| 0 <= j < ignored ==> step_of(quit_on, position, events[j]) == Step::Wait,
    ensures
        read_from(quit_on, position, events, from) == read_from(quit_on, position, events, ignored),
    decreases ignored - from,
{
    if from < ignored {
        lemma_skip_ignored(quit_on, position, events, ignored, from + 1);
    }
}

/// Ignored events are consumed, and the first event after them that
/// decides is what ends the read.
pub proof fn lemma_ignored_events_skipped(
    quit_on: Seq<char>,
    position: (u16, u16),
    ignored: Seq<Event>,
    e: Event,
    rest: Seq<Event>,
)
    requires
        forall|j: int| 0 <= j < ignored.len() ==> step_of(quit_on, position, ignored[j]) == Step::Wait,
        step_of(quit_on, position, e) is Finish,
    ensures
        read_from(quit_on, position, ignored.push(e) + rest, 0) == (
            ignored.len() + 1,
            step_of(quit_on, position, e),
        ),
{
    let events = ignored.push(e) + rest;
    assert(events[ignored.len() as int] == e);
    lemma_skip_ignored(quit_on, position, events, ignored.len(), 0);
}

/// However many events a read ignores first, the screen is cleared from
/// the cursor position recorded at the start of the session.
pub proof fn lemma_cleared_from_start(
    quit_on: Seq<char>,
    position: (u16, u16),
    events: Seq<Event>,
    from: nat,
)
    ensures
        read_from(quit_on, position, events, from).1 matches Step::Finish { move_to, .. }
            ==> move_to == position,
    decreases events.len() - from,
{
    if from < events.len() {
        lemma_cleared_from_start(quit_on, position, events, from + 1);
    }
}

} // verus!
