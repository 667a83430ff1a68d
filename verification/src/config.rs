//! The closed command vocabulary, the screen and input-mode enumerations,
//! and the parser that turns command-line text into a `Command`.

use vstd::prelude::*;

verus! {

/// The screens the application can show; exactly one is active at a time.
#[derive(Clone, Copy, PartialEq, Eq, Structural, Debug)]
pub enum ScreenEnum {
    Main,
    Login,
    Help,
}

/// The two input-interpretation modes: keyboard shortcuts (`Normal`) or
/// free-text command entry (`CommandEntry`).
#[derive(Clone, Copy, PartialEq, Eq, Structural, Debug)]
pub enum AppMode {
    Normal,
    CommandEntry,
}

/// The closed set of semantic actions the controller can queue and dispatch.
/// Commands are immutable value objects; queueing does not alter them.
#[derive(Debug)]
pub enum Command {
    Up,
    Down,
    NextPanel,
    PrevPanel,
    TogglePlay,
    PrevTrack,
    NextTrack,
    Play,
    Esc,
    ToggleRepeat,
    ToggleShuffle,
    GotoTop,
    GotoBottom,
    GotoScreen(ScreenEnum),
    NewPlaylist(Option<String>),
    PlaylistAdd,
    SelectPlaylist,
    Quit,
    EnterCommand,
    Logout,
    Nop,
}

/// Why a piece of command-line text could not be parsed into a `Command`.
#[derive(Clone, Copy, PartialEq, Eq, Structural, Debug)]
pub enum ParseError {
    UnknownCommand,
}

/// The text of the transient prompt shown for a parse error.
pub open spec fn spec_parse_error_message(e: ParseError) -> Seq<char> {
    seq!['u', 'n', 'k', 'n', 'o', 'w', 'n', ' ', 'c', 'o', 'm', 'm', 'a', 'n', 'd']
}

impl ParseError {
    /// The human-readable message shown in the command line for this error.
    pub fn message(&self) -> (m: Vec<char>)
        ensures
            m@ == spec_parse_error_message(*self),
    {
        let m: Vec<char> = vec![
            'u',
            'n',
            'k',
            'n',
            'o',
            'w',
            'n',
            ' ',
            'c',
            'o',
            'm',
            'm',
            'a',
            'n',
            'd',
        ];
        proof {
            assert(m@ =~= spec_parse_error_message(*self));
        }
        m
    }
}

/// The committed text with one leading `:` removed, if present. A leading
/// `:` is the glyph that switched the application into text entry; the
/// grammar accepts the text with or without it.
pub open spec fn spec_strip_colon(s: Seq<char>) -> Seq<char> {
    if s.len() > 0 && s[0] == ':' {
        s.skip(1)
    } else {
        s
    }
}

pub open spec fn tok_quit() -> Seq<char> {
    seq!['q', 'u', 'i', 't']
}

pub open spec fn tok_logout() -> Seq<char> {
    seq!['l', 'o', 'g', 'o', 'u', 't']
}

pub open spec fn tok_main() -> Seq<char> {
    seq!['m', 'a', 'i', 'n']
}

pub open spec fn tok_login() -> Seq<char> {
    seq!['l', 'o', 'g', 'i', 'n']
}

pub open spec fn tok_help() -> Seq<char> {
    seq!['h', 'e', 'l', 'p']
}

pub open spec fn tok_play() -> Seq<char> {
    seq!['p', 'l', 'a', 'y']
}

pub open spec fn tok_next() -> Seq<char> {
    seq!['n', 'e', 'x', 't']
}

pub open spec fn tok_prev() -> Seq<char> {
    seq!['p', 'r', 'e', 'v']
}

/// The command-entry grammar: after an optional leading `:`, the text must
/// be exactly one token of the closed vocabulary; anything else is an
/// `UnknownCommand` error.
pub open spec fn spec_parse(s: Seq<char>) -> Result<Command, ParseError> {
    let t = spec_strip_colon(s);
    if t == tok_quit() {
        Ok(Command::Quit)
    } else if t == tok_logout() {
        Ok(Command::Logout)
    } else if t == tok_main() {
        Ok(Command::GotoScreen(ScreenEnum::Main))
    } else if t == tok_login() {
        Ok(Command::GotoScreen(ScreenEnum::Login))
    } else if t == tok_help() {
        Ok(Command::GotoScreen(ScreenEnum::Help))
    } else if t == tok_play() {
        Ok(Command::Play)
    } else if t == tok_next() {
        Ok(Command::NextTrack)
    } else if t == tok_prev() {
        Ok(Command::PrevTrack)
    } else {
        Err(ParseError::UnknownCommand)
    }
}

/// Whether the suffix of `v` starting at `start` is exactly `tok`.
fn text_matches(v: &Vec<char>, start: usize, tok: &Vec<char>) -> (r: bool)
    requires
        start <= v@.len(),
    ensures
        r == (v@.skip(start as int) == tok@),
{
    if v.len() - start != tok.len() {
        proof {
            assert(v@.skip(start as int).len() != tok@.len());
        }
        return false;
    }
    let mut i: usize = 0;
    while i < tok.len()
        invariant
            start + tok@.len() == v@.len(),
            v@.len() <= usize::MAX,
            i <= tok@.len(),
            forall|j: int| 0 <= j < i ==> v@.skip(start as int)[j] == tok@[j],
        decreases tok@.len() - i,
    {
        if v[start + i] != tok[i] {
            proof {
                assert(v@.skip(start as int)[i as int] != tok@[i as int]);
            }
            return false;
        }
        i = i + 1;
    }
    proof {
        assert(v@.skip(start as int) =~= tok@);
    }
    true
}

impl Command {
    /// Parses committed command-line text into a `Command`, per the grammar
    /// of `spec_parse`: exactly which inputs succeed, and with which
    /// command, is pinned by that function.
    pub fn parse(text: &Vec<char>) -> (r: Result<Command, ParseError>)
        ensures
            r == spec_parse(text@),
    {
        let start: usize = if text.len() > 0 && text[0] == ':' {
            1
        } else {
            0
        };
        proof {
            assert(spec_strip_colon(text@) == text@.skip(start as int));
        }
        if text_matches(text, start, &vec!['q', 'u', 'i', 't']) {
            Ok(Command::Quit)
        } else if text_matches(text, start, &vec!['l', 'o', 'g', 'o', 'u', 't']) {
            Ok(Command::Logout)
        } else if text_matches(text, start, &vec!['m', 'a', 'i', 'n']) {
            Ok(Command::GotoScreen(ScreenEnum::Main))
        } else if text_matches(text, start, &vec!['l', 'o', 'g', 'i', 'n']) {
            Ok(Command::GotoScreen(ScreenEnum::Login))
        } else if text_matches(text, start, &vec!['h', 'e', 'l', 'p']) {
            Ok(Command::GotoScreen(ScreenEnum::Help))
        } else if text_matches(text, start, &vec!['p', 'l', 'a', 'y']) {
            Ok(Command::Play)
        } else if text_matches(text, start, &vec!['n', 'e', 'x', 't']) {
            Ok(Command::NextTrack)
        } else if text_matches(text, start, &vec!['p', 'r', 'e', 'v']) {
            Ok(Command::PrevTrack)
        } else {
            Err(ParseError::UnknownCommand)
        }
    }
}

} // verus!
