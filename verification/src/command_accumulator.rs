//! Collects the characters typed on the console into command lines.

use crate::text::{
    fits_text, text_as_str, text_chars, text_clear, text_copy, text_new, text_pop, text_try_push,
};
use arrayvec::ArrayString;
use vstd::prelude::*;
use vstd::string::StrSliceExecFns;

verus! {

/// The delete character, sent by the backspace key.
pub const DELETE: char = '\u{7f}';

/// The line typed so far.
#[derive(Debug)]
pub struct CommandAccumulator {
    pub buf: ArrayString<50>,
}

impl View for CommandAccumulator {
    type V = Seq<char>;

    open spec fn view(&self) -> Seq<char> {
        text_chars(self.buf)
    }
}

/// Whether a character ends the line.
pub open spec fn ends_line(c: char) -> bool {
    c == '\n' || c == '\r'
}

/// The line after one more character was typed: a line end empties it,
/// the delete character takes the last character away, and any other
/// character is appended where it still fits.
pub open spec fn line_after(line: Seq<char>, c: char) -> Seq<char> {
    if ends_line(c) {
        Seq::empty()
    } else if c == DELETE {
        if line.len() > 0 {
            line.drop_last()
        } else {
            line
        }
    } else if fits_text(line.push(c)) {
        line.push(c)
    } else {
        line
    }
}

impl CommandAccumulator {
    /// An accumulator with an empty line.
    pub fn new() -> (accumulator: CommandAccumulator)
        ensures
            accumulator@ == Seq::<char>::empty(),
    {
        CommandAccumulator { buf: text_new() }
    }

    /// Takes in one typed character. Returns the finished command when the
    /// character ends a line that is not empty.
    pub fn put(&mut self, c: char) -> (command: Option<ArrayString<50>>)
        ensures
            final(self)@ == line_after(old(self)@, c),
            command is Some <==> ends_line(c) && old(self)@.len() > 0,
            command matches Some(line) ==> text_chars(line) == old(self)@,
    {
        if c == '\n' || c == '\r' {
            let line = text_copy(&self.buf);
            text_clear(&mut self.buf);
            if text_as_str(&line).unicode_len() > 0 {
                return Some(line);
            }
        } else if c == DELETE {
            let _ = text_pop(&mut self.buf);
        } else {
            let _ = text_try_push(&mut self.buf, c);
        }
        None
    }
}

} // verus!
