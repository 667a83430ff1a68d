//! The command-line widget as the controller sees it: the in-progress text
//! buffer, the prompt glyph, and cursor visibility. The visual text-editing
//! internals stay outside; the controller only appends, deletes and clears.

use vstd::prelude::*;
use crate::input::KeyCode;

verus! {

/// Mathematical model of the command line.
pub struct CommandLineView {
    pub buffer: Seq<char>,
    pub prompt: Seq<char>,
    pub cursor_visible: bool,
}

/// The command line: in-progress text typed in CommandEntry mode, a prompt
/// glyph shown before it, and whether the cursor is rendered.
pub struct CommandLine {
    pub buffer: Vec<char>,
    pub prompt: Vec<char>,
    pub cursor_visible: bool,
}

impl View for CommandLine {
    type V = CommandLineView;

    open spec fn view(&self) -> CommandLineView {
        CommandLineView {
            buffer: self.buffer@,
            prompt: self.prompt@,
            cursor_visible: self.cursor_visible,
        }
    }
}

/// How one key mutates the text buffer in CommandEntry mode: printable
/// characters append, backspace deletes the last character, every other
/// key leaves the buffer alone.
pub open spec fn spec_buffer_input(buffer: Seq<char>, k: KeyCode) -> Seq<char> {
    match k {
        KeyCode::Char(c) => buffer.push(c),
        KeyCode::Backspace => if buffer.len() > 0 {
            buffer.drop_last()
        } else {
            buffer
        },
        _ => buffer,
    }
}

impl CommandLine {
    /// An empty command line: no text, no prompt, cursor hidden.
    pub fn new() -> (cl: CommandLine)
        ensures
            cl@.buffer == Seq::<char>::empty(),
            cl@.prompt == Seq::<char>::empty(),
            cl@.cursor_visible == false,
    {
        CommandLine { buffer: Vec::new(), prompt: Vec::new(), cursor_visible: false }
    }

    /// Discards the buffered text; prompt and cursor are untouched.
    pub fn reset(&mut self)
        ensures
            final(self)@.buffer == Seq::<char>::empty(),
            final(self)@.prompt == old(self)@.prompt,
            final(self)@.cursor_visible == old(self)@.cursor_visible,
    {
        self.buffer.clear();
    }

    /// Replaces the prompt glyph shown before the buffered text.
    pub fn set_prompt(&mut self, p: Vec<char>)
        ensures
            final(self)@.prompt == p@,
            final(self)@.buffer == old(self)@.buffer,
            final(self)@.cursor_visible == old(self)@.cursor_visible,
    {
        self.prompt = p;
    }

    /// Shows or hides the cursor.
    pub fn set_cursor_visibility(&mut self, visible: bool)
        ensures
            final(self)@.cursor_visible == visible,
            final(self)@.buffer == old(self)@.buffer,
            final(self)@.prompt == old(self)@.prompt,
    {
        self.cursor_visible = visible;
    }

    /// Applies one key to the buffered text (CommandEntry mode, any key
    /// other than Enter and Esc).
    pub fn input(&mut self, k: KeyCode)
        ensures
            final(self)@.buffer == spec_buffer_input(old(self)@.buffer, k),
            final(self)@.prompt == old(self)@.prompt,
            final(self)@.cursor_visible == old(self)@.cursor_visible,
    {
        match k {
            KeyCode::Char(c) => {
                self.buffer.push(c);
            },
            KeyCode::Backspace => {
                if self.buffer.len() > 0 {
                    self.buffer.pop();
                    proof {
                        assert(self.buffer@ =~= old(self)@.buffer.drop_last());
                    }
                }
            },
            _ => {},
        }
    }

    /// Appends text to the buffer (used for transient prompt messages).
    pub fn insert_text(&mut self, text: &Vec<char>)
        ensures
            final(self)@.buffer == old(self)@.buffer + text@,
            final(self)@.prompt == old(self)@.prompt,
            final(self)@.cursor_visible == old(self)@.cursor_visible,
    {
        let mut i: usize = 0;
        while i < text.len()
            invariant
                i <= text@.len(),
                self.buffer@ == old(self)@.buffer + text@.take(i as int),
                self.prompt == old(self).prompt,
                self.cursor_visible == old(self).cursor_visible,
            decreases text@.len() - i,
        {
            self.buffer.push(text[i]);
            proof {
                assert(old(self)@.buffer + text@.take(i as int) + seq![text@[i as int]]
                    =~= old(self)@.buffer + text@.take(i + 1));
            }
            i = i + 1;
        }
        proof {
            assert(text@.take(text@.len() as int) =~= text@);
        }
    }

    /// A copy of the buffered text.
    pub fn get_contents(&self) -> (r: Vec<char>)
        ensures
            r@ == self@.buffer,
    {
        let mut r: Vec<char> = Vec::new();
        let mut i: usize = 0;
        while i < self.buffer.len()
            invariant
                i <= self.buffer@.len(),
                r@ == self.buffer@.take(i as int),
            decreases self.buffer@.len() - i,
        {
            r.push(self.buffer[i]);
            proof {
                assert(self.buffer@.take(i as int).push(self.buffer@[i as int])
                    =~= self.buffer@.take(i + 1));
            }
            i = i + 1;
        }
        proof {
            assert(self.buffer@.take(self.buffer@.len() as int) =~= self.buffer@);
        }
        r
    }
}

} // verus!
