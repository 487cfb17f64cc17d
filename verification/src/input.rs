//! Key bindings of the browsing phase: which command a key event stands for.

use vstd::prelude::*;
use crate::list::Step;

verus! {

/// The key of a key event, as far as the bindings tell keys apart.
#[derive(Debug, Clone, Copy, PartialEq, Eq, Structural)]
pub enum Key {
    Char(char),
    Esc,
    Enter,
    Up,
    Down,
    Home,
    End,
    /// Any key that has no binding of its own.
    Other,
}

/// What happened to the key.
#[derive(Debug, Clone, Copy, PartialEq, Eq, Structural)]
pub enum KeyKind {
    Press,
    Repeat,
    Release,
}

/// One key event read from the terminal.
#[derive(Debug, Clone, Copy, PartialEq, Eq, Structural)]
pub struct KeyInput {
    pub key: Key,
    pub kind: KeyKind,
}

/// What a key event asks the browsing phase to do.
#[derive(Debug, Clone, Copy, PartialEq, Eq, Structural)]
pub enum Command {
    /// Leave without confirming.
    Quit,
    /// Leave, confirming the marks.
    Confirm,
    /// Move the cursor one step.
    Move(Step),
    /// Put the cursor on the first candidate.
    MoveToStart,
    /// Put the cursor on the last candidate.
    MoveToEnd,
    /// Flip the mark of the candidate under the cursor.
    ToggleSelected,
    /// Do nothing.
    Ignore,
}

impl Command {
    /// Whether the command ends the browsing phase.
    pub open spec fn requests_exit(self) -> bool {
        self == Command::Quit || self == Command::Confirm
    }
}

/// The command bound to a key event. Only presses count; a release or a
/// repeat, and a press of a key without a binding, are ignored.
pub open spec fn command_of(input: KeyInput) -> Command {
    if input.kind != KeyKind::Press {
        Command::Ignore
    } else {
        match input.key {
            Key::Char('q') | Key::Esc => Command::Quit,
            Key::Char('j') | Key::Down => Command::Move(Step::Next),
            Key::Char('k') | Key::Up => Command::Move(Step::Previous),
            Key::Char('g') | Key::Home => Command::MoveToStart,
            Key::Char('G') | Key::End => Command::MoveToEnd,
            Key::Char(' ') => Command::ToggleSelected,
            Key::Enter => Command::Confirm,
            _ => Command::Ignore,
        }
    }
}

/// Maps a key event to its command.
pub fn command_for(input: KeyInput) -> (command: Command)
    ensures
        command == command_of(input),
{
    match input.kind {
        KeyKind::Press => match input.key {
            Key::Char('q') | Key::Esc => Command::Quit,
            Key::Char('j') | Key::Down => Command::Move(Step::Next),
            Key::Char('k') | Key::Up => Command::Move(Step::Previous),
            Key::Char('g') | Key::Home => Command::MoveToStart,
            Key::Char('G') | Key::End => Command::MoveToEnd,
            Key::Char(' ') => Command::ToggleSelected,
            Key::Enter => Command::Confirm,
            _ => Command::Ignore,
        },
        _ => Command::Ignore,
    }
}

} // verus!
