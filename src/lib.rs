//! Single-keystroke terminal input: the decisions that turn a stream of
//! terminal events into at most one key per read, and the bookkeeping that
//! restores the terminal's modes exactly once.

pub mod event;
pub mod modes;
pub mod tui;

pub use event::{Event, KeyCode, KeyEvent, Modifiers};
pub use modes::{Modes, Restore};
pub use tui::{Step, Tui};
