//! Classification of one input event into a semantic command. Dispatch is a
//! pure keymap: it never touches the selection or the session.

use vstd::prelude::*;

verus! {

/// A keyboard event as the session sees it: a printable character, or one
/// of the named keys the player reacts to. Anything else is `Other`.
#[derive(Clone, Copy, Debug, PartialEq, Eq, Structural)]
pub enum KeyInput {
    Char(char),
    Esc,
    Enter,
    Other,
}

/// The closed set of semantic actions one input event can request.
#[derive(Clone, Copy, Debug, PartialEq, Eq, Structural)]
pub enum Command {
    MoveNext,
    MovePrev,
    MoveFirst,
    MoveLast,
    Unselect,
    TogglePauseResume,
    Stop,
    Activate,
    SeekForward,
    SeekBackward,
    Quit,
    Noop,
}

/// The keymap: which command each input event requests. Every symbol
/// outside the map requests `Noop`.
pub open spec fn command_of(key: KeyInput) -> Command {
    match key {
        KeyInput::Char(c) => if c == 'q' {
            Command::Quit
        } else if c == 'j' {
            Command::MoveNext
        } else if c == 'k' {
            Command::MovePrev
        } else if c == 'g' {
            Command::MoveFirst
        } else if c == 'G' {
            Command::MoveLast
        } else if c == 'h' {
            Command::SeekBackward
        } else if c == 'l' {
            Command::SeekForward
        } else if c == 'c' {
            Command::TogglePauseResume
        } else if c == 'x' {
            Command::Stop
        } else {
            Command::Noop
        },
        KeyInput::Esc => Command::Unselect,
        KeyInput::Enter => Command::Activate,
        KeyInput::Other => Command::Noop,
    }
}

/// Classify one input event.
pub fn dispatch(key: KeyInput) -> (c: Command)
    ensures
        c == command_of(key),
{
    match key {
        KeyInput::Char(ch) => match ch {
            'q' => Command::Quit,
            'j' => Command::MoveNext,
            'k' => Command::MovePrev,
            'g' => Command::MoveFirst,
            'G' => Command::MoveLast,
            'h' => Command::SeekBackward,
            'l' => Command::SeekForward,
            'c' => Command::TogglePauseResume,
            'x' => Command::Stop,
            _ => Command::Noop,
        },
        KeyInput::Esc => Command::Unselect,
        KeyInput::Enter => Command::Activate,
        KeyInput::Other => Command::Noop,
    }
}

} // verus!
