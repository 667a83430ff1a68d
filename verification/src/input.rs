//! The input translator: a plain model of one key press and the fixed
//! Normal-mode keymap that turns a key into a `Command`.

use vstd::prelude::*;
use crate::config::{Command, ScreenEnum};

verus! {

/// The keys the controller distinguishes. Any key it does not care about
/// (function keys other than those mapped, navigation keys of the editor,
/// and so on) arrives as `Other`.
#[derive(Clone, Copy, PartialEq, Eq, Structural, Debug)]
pub enum KeyCode {
    Char(char),
    Up,
    Down,
    Left,
    Right,
    Tab,
    BackTab,
    Enter,
    Esc,
    Backspace,
    F(u8),
    Other,
}

/// How the key event was produced. Only `Press` and `Repeat` are acted on;
/// `Release` is ignored.
#[derive(Clone, Copy, PartialEq, Eq, Structural, Debug)]
pub enum KeyEventKind {
    Press,
    Repeat,
    Release,
}

/// One keyboard event, as the outer loop hands it to the controller.
#[derive(Clone, Copy, PartialEq, Eq, Structural, Debug)]
pub struct KeyEvent {
    pub kind: KeyEventKind,
    pub code: KeyCode,
}

/// The fixed Normal-mode keymap. Every key maps to exactly one command;
/// unmapped keys map to `Nop`, which is still enqueued, so that the
/// dispatcher can tell "no-op" from "queue empty".
pub open spec fn spec_keymap(k: KeyCode) -> Command {
    match k {
        KeyCode::Char(c) => if c == 'k' {
            Command::Up
        } else if c == 'j' {
            Command::Down
        } else if c == ' ' {
            Command::TogglePlay
        } else if c == ',' {
            Command::PrevTrack
        } else if c == '.' {
            Command::NextTrack
        } else if c == 'r' {
            Command::ToggleRepeat
        } else if c == 's' {
            Command::ToggleShuffle
        } else if c == 'g' {
            Command::GotoTop
        } else if c == 'G' {
            Command::GotoBottom
        } else if c == '1' {
            Command::GotoScreen(ScreenEnum::Main)
        } else if c == '0' {
            Command::GotoScreen(ScreenEnum::Help)
        } else if c == 'n' {
            Command::NewPlaylist(None)
        } else if c == 'p' {
            Command::PlaylistAdd
        } else if c == 'x' {
            Command::SelectPlaylist
        } else if c == 'q' {
            Command::Quit
        } else if c == ':' {
            Command::EnterCommand
        } else {
            Command::Nop
        },
        KeyCode::Up => Command::Up,
        KeyCode::Down => Command::Down,
        KeyCode::Enter => Command::Play,
        KeyCode::Esc => Command::Esc,
        KeyCode::Right => Command::NextPanel,
        KeyCode::Tab => Command::NextPanel,
        KeyCode::Left => Command::PrevPanel,
        KeyCode::BackTab => Command::PrevPanel,
        KeyCode::F(n) => if n == 1 {
            Command::GotoScreen(ScreenEnum::Help)
        } else {
            Command::Nop
        },
        _ => Command::Nop,
    }
}

/// Whether the keymap binds `k` to anything other than `Nop`.
pub open spec fn spec_key_is_mapped(k: KeyCode) -> bool {
    !(spec_keymap(k) is Nop)
}

/// The executable keymap: the one place the key-to-command table lives.
pub fn keymap(k: KeyCode) -> (c: Command)
    ensures
        c == spec_keymap(k),
{
    match k {
        KeyCode::Char('k') => Command::Up,
        KeyCode::Char('j') => Command::Down,
        KeyCode::Char(' ') => Command::TogglePlay,
        KeyCode::Char(',') => Command::PrevTrack,
        KeyCode::Char('.') => Command::NextTrack,
        KeyCode::Char('r') => Command::ToggleRepeat,
        KeyCode::Char('s') => Command::ToggleShuffle,
        KeyCode::Char('g') => Command::GotoTop,
        KeyCode::Char('G') => Command::GotoBottom,
        KeyCode::Char('1') => Command::GotoScreen(ScreenEnum::Main),
        KeyCode::Char('0') => Command::GotoScreen(ScreenEnum::Help),
        KeyCode::Char('n') => Command::NewPlaylist(None),
        KeyCode::Char('p') => Command::PlaylistAdd,
        KeyCode::Char('x') => Command::SelectPlaylist,
        KeyCode::Char('q') => Command::Quit,
        KeyCode::Char(':') => Command::EnterCommand,
        KeyCode::Char(_) => Command::Nop,
        KeyCode::Up => Command::Up,
        KeyCode::Down => Command::Down,
        KeyCode::Enter => Command::Play,
        KeyCode::Esc => Command::Esc,
        KeyCode::Right => Command::NextPanel,
        KeyCode::Tab => Command::NextPanel,
        KeyCode::Left => Command::PrevPanel,
        KeyCode::BackTab => Command::PrevPanel,
        KeyCode::F(1) => Command::GotoScreen(ScreenEnum::Help),
        _ => Command::Nop,
    }
}

} // verus!
