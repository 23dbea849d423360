//! Rendering and autocompletion core of an interactive line-oriented REPL.
//!
//! The crate owns the terminal coordinate bookkeeping of the input region,
//! the screen-writing rules built on it, and the client-side state of an
//! external completion daemon driven over a line-based text protocol.  All
//! real input and output stays outside: screen mutations are returned as
//! [`term::TermCommand`] values for the surrounding program to replay, and
//! the daemon's byte streams are handed in and out as plain values.

use vstd::prelude::*;

pub mod args;
pub mod cursor;
pub mod error;
pub mod racer;
pub mod term;
pub mod utils;
pub mod writer;

verus! {

use vstd::string::*;

use crate::cursor::Cursor;
use crate::racer::Racer;
use crate::term::Color;

/// Configuration values handed in by the surrounding program.
#[derive(Clone, Copy, PartialEq, Eq, Structural, Debug)]
pub struct Options {
    /// Whether completion is enabled at all.
    pub enable_racer: bool,
    /// Foreground color for inline suggestions.
    pub racer_color: Color,
}

/// The line being edited, with the edit cursor as a character offset.
pub struct Buffer {
    /// The characters typed so far.
    pub text: String,
    /// The edit cursor, as a character offset into `text`.
    pub pos: usize,
}

impl Buffer {
    /// The edit cursor sits right after the last typed character.
    pub open spec fn at_end(self) -> bool {
        self.pos == self.text@.len()
    }

    /// An empty line with the edit cursor at its start.
    pub fn new() -> (b: Buffer)
        ensures
            b.text@ == Seq::<char>::empty(),
            b.pos == 0,
    {
        Buffer { text: String::new(), pos: 0 }
    }

    /// Move the edit cursor back to the start of the line.
    pub fn goto_start(&mut self)
        ensures
            final(self).text == old(self).text,
            final(self).pos == 0,
    {
        self.pos = 0;
    }

    /// Number of characters typed so far.
    pub fn len(&self) -> (n: usize)
        ensures
            n == self.text@.len(),
    {
        self.text.as_str().unicode_len()
    }

    /// Whether the edit cursor sits at the end of the line.
    pub fn is_at_end(&self) -> (r: bool)
        ensures
            r == self.at_end(),
    {
        let n = self.text.as_str().unicode_len();
        self.pos == n
    }
}

/// The REPL core: cursor model, input line, transcript length, completion
/// session and configuration.  The daemon's process handle itself lives with
/// the surrounding program; `racer` holds everything the logic reads.
pub struct IRust {
    /// The cursor model, mutated exclusively by the screen-writing methods.
    pub cursor: Cursor,
    /// The line being edited.
    pub buffer: Buffer,
    /// Number of lines already in the REPL transcript.
    pub repl_lines: usize,
    /// The completion session, absent when the daemon could not be spawned
    /// or completion is disabled.
    pub racer: Option<Racer>,
    /// Configuration from the surrounding program.
    pub options: Options,
}

impl IRust {
    /// Everything but the cursor model is the same in both states.
    pub open spec fn same_apart_from_cursor(self, other: IRust) -> bool {
        &&& self.buffer == other.buffer
        &&& self.repl_lines == other.repl_lines
        &&& self.racer == other.racer
        &&& self.options == other.options
    }

    /// A fresh core for a terminal with the given height.  Completion starts
    /// absent; the surrounding program attaches a session once the daemon
    /// process is up.
    pub fn new(height: usize, options: Options) -> (r: IRust)
        requires
            2 <= height,
        ensures
            r.cursor.pos.current_pos == (0usize, 0usize),
            r.cursor.pos.starting_pos == (0usize, 0usize),
            r.cursor.height == height,
            r.buffer.text@ == Seq::<char>::empty(),
            r.buffer.pos == 0,
            r.repl_lines == 0,
            r.racer is None,
            r.options == options,
            r.cursor.wf(),
    {
        IRust {
            cursor: Cursor::new(height),
            buffer: Buffer::new(),
            repl_lines: 0,
            racer: None,
            options,
        }
    }
}

} // verus!
