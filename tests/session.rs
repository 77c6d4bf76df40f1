use single_key_tui::{Event, KeyCode, KeyEvent, Modes, Modifiers, Restore, Step, Tui};

fn key(c: char, modifiers: Modifiers) -> Event {
    Event::Key(KeyEvent::new(c, modifiers))
}

fn plain(c: char) -> Event {
    key(c, Modifiers::none())
}

fn ctrl(c: char) -> Event {
    key(c, Modifiers::control())
}

fn with(shift: bool, control: bool, alt: bool) -> Modifiers {
    Modifiers { shift, control, alt, ..Modifiers::none() }
}

fn finish(key: Option<char>, move_to: (u16, u16)) -> Step {
    Step::Finish { key, move_to }
}

#[test]
fn quit_keys_end_the_session() {
    let tui = Tui::new(vec!['q', 'x', 'Q'], (0, 5));
    for c in ['q', 'x', 'Q'] {
        assert_eq!(tui.next_key(&plain(c)), finish(None, (0, 5)));
    }
}

#[test]
fn other_plain_keys_are_returned() {
    let tui = Tui::new(vec!['q'], (2, 1));
    for c in ['a', 'Z', ' ', '1', 'é'] {
        assert_eq!(tui.next_key(&plain(c)), finish(Some(c), (2, 1)));
    }
}

#[test]
fn interrupt_ends_whatever_the_quit_keys() {
    for quit in [vec![], vec!['q'], vec!['c', 'd']] {
        let tui = Tui::new(quit, (7, 7));
        assert_eq!(tui.next_key(&ctrl('c')), finish(None, (7, 7)));
        assert_eq!(tui.next_key(&ctrl('d')), finish(None, (7, 7)));
    }
}

#[test]
fn other_modifiers_and_codes_are_ignored() {
    let tui = Tui::new(vec!['q'], (0, 0));
    assert_eq!(tui.next_key(&ctrl('a')), Step::Wait);
    assert_eq!(tui.next_key(&ctrl('q')), Step::Wait);
    assert_eq!(tui.next_key(&key('A', with(true, false, false))), Step::Wait);
    assert_eq!(tui.next_key(&key('q', with(false, false, true))), Step::Wait);
    assert_eq!(tui.next_key(&key('c', with(false, true, true))), Step::Wait);
    assert_eq!(tui.next_key(&key('c', with(true, true, false))), Step::Wait);
    let meta = Modifiers { meta: true, ..Modifiers::none() };
    assert_eq!(tui.next_key(&key('x', meta)), Step::Wait);
    let no_char = Event::Key(KeyEvent { code: KeyCode::Other, modifiers: Modifiers::none() });
    assert_eq!(tui.next_key(&no_char), Step::Wait);
    assert_eq!(tui.next_key(&Event::Other), Step::Wait);
}

#[test]
fn ignored_events_are_consumed_until_one_decides() {
    let tui = Tui::new(vec!['q'], (4, 9));
    let events = vec![Event::Other, ctrl('a'), key('b', with(false, false, true)), plain('z'), plain('y')];
    assert_eq!(tui.read_key(&events), (4, finish(Some('z'), (4, 9))));
}

#[test]
fn read_of_only_ignored_events_waits() {
    let tui = Tui::new(vec!['q'], (1, 1));
    assert_eq!(tui.read_key(&vec![]), (0, Step::Wait));
    let events = vec![Event::Other, ctrl('x'), ctrl('q')];
    assert_eq!(tui.read_key(&events), (3, Step::Wait));
}

#[test]
fn screen_is_cleared_from_the_start_position() {
    let tui = Tui::new(vec!['q'], (12, 34));
    assert_eq!(tui.position(), (12, 34));
    let events = vec![ctrl('a'), ctrl('b'), ctrl('e'), Event::Other, plain('q')];
    assert_eq!(tui.read_key(&events), (5, finish(None, (12, 34))));
    assert_eq!(tui.read_key(&vec![plain('w')]), (1, finish(Some('w'), (12, 34))));
}

#[test]
fn quit_key_after_plain_key() {
    let tui = Tui::new(vec!['q'], (0, 0));
    assert_eq!(tui.next_key(&plain('x')), finish(Some('x'), (0, 0)));
    assert_eq!(tui.next_key(&plain('q')), finish(None, (0, 0)));
    let events = vec![plain('x'), plain('q')];
    let (used, first) = tui.read_key(&events);
    assert_eq!((used, first), (1, finish(Some('x'), (0, 0))));
    assert_eq!(tui.read_key(&events[used..].to_vec()), (1, finish(None, (0, 0))));
}

#[test]
fn control_a_ignored_then_control_c_ends() {
    let tui = Tui::new(vec![], (0, 0));
    assert_eq!(tui.next_key(&ctrl('a')), Step::Wait);
    assert_eq!(tui.next_key(&ctrl('c')), finish(None, (0, 0)));
    assert_eq!(tui.read_key(&vec![ctrl('a'), ctrl('c')]), (2, finish(None, (0, 0))));
}

#[test]
fn empty_quit_set_returns_every_plain_key() {
    let tui = Tui::new(vec![], (0, 0));
    assert!(!tui.is_quit_key('q'));
    assert_eq!(tui.next_key(&plain('q')), finish(Some('q'), (0, 0)));
}

#[test]
fn quit_key_lookup() {
    let tui = Tui::new(vec!['a', 'b'], (0, 0));
    assert!(tui.is_quit_key('a'));
    assert!(tui.is_quit_key('b'));
    assert!(!tui.is_quit_key('c'));
}

#[test]
fn modifier_queries() {
    assert!(Modifiers::none().is_empty());
    assert!(!Modifiers::none().is_control());
    assert!(Modifiers::control().is_control());
    assert!(!Modifiers::control().is_empty());
    assert!(!with(true, true, false).is_control());
    assert!(!with(true, false, false).is_empty());
}

#[test]
fn modes_are_restored_once() {
    let mut modes = Modes::new();
    modes.entered_raw();
    modes.hid_cursor();
    assert_eq!(modes, Modes { raw: true, cursor_hidden: true });
    assert_eq!(modes.restore(), Restore { disable_raw_mode: true, show_cursor: true });
    assert_eq!(modes.restore(), Restore { disable_raw_mode: false, show_cursor: false });
    assert_eq!(modes, Modes::new());
}

#[test]
fn partial_start_restores_only_raw_mode() {
    let mut modes = Modes::new();
    modes.entered_raw();
    assert_eq!(modes.restore(), Restore { disable_raw_mode: true, show_cursor: false });
    assert_eq!(modes.restore(), Restore { disable_raw_mode: false, show_cursor: false });
}

#[test]
fn untouched_modes_need_no_restore() {
    let mut modes = Modes::new();
    assert_eq!(modes.restore(), Restore { disable_raw_mode: false, show_cursor: false });
}
