//! The screen writer: the only component that produces terminal output.
//!
//! Each method mutates the cursor model exactly as the emitted commands,
//! once replayed in order on the terminal, move the real cursor — that
//! correspondence is what the contracts here pin down.

use vstd::prelude::*;

verus! {

use vstd::math::max;
use vstd::string::*;

use crate::cursor::{Cursor, CursorPosition};

broadcast use crate::term::lemma_write_char_cmds;
use crate::term::{ClearType, Color, TermCommand, write_char_cmds};
use crate::IRust;

/// The cursor after the viewport scrolled up by `n` lines: both rows follow
/// the content, stopping at the top of the screen.
pub open spec fn spec_scroll_up_cursor(c: Cursor, n: int) -> Cursor {
    Cursor {
        pos: CursorPosition {
            current_pos: (
                c.pos.current_pos.0,
                if c.pos.current_pos.1 >= n {
                    (c.pos.current_pos.1 - n) as usize
                } else {
                    0usize
                },
            ),
            starting_pos: (
                c.pos.starting_pos.0,
                if c.pos.starting_pos.1 >= n {
                    (c.pos.starting_pos.1 - n) as usize
                } else {
                    0usize
                },
            ),
        },
        ..c
    }
}

/// The cursor after a newline: scrolled first when it sat on the last row,
/// then one row down, then re-anchored at the new row.
pub open spec fn spec_write_newline(c: Cursor) -> Cursor {
    let scrolled = if c.pos.current_pos.1 == c.height - 1 {
        spec_scroll_up_cursor(c, 1)
    } else {
        c
    };
    let moved = Cursor {
        pos: CursorPosition {
            current_pos: (scrolled.pos.current_pos.0, (scrolled.pos.current_pos.1 + 1) as usize),
            starting_pos: scrolled.pos.starting_pos,
        },
        ..scrolled
    };
    moved.spec_use_current_row_as_starting_row()
}

/// Law: a newline followed by re-anchoring leaves the anchor row equal to
/// the cursor row — the newline already re-anchors, so anchoring once more
/// changes nothing.
pub proof fn lemma_newline_then_anchor(c: Cursor)
    requires
        c.wf(),
    ensures
        ({
            let after = spec_write_newline(c).spec_use_current_row_as_starting_row();
            after.pos.starting_pos.1 == after.pos.current_pos.1
        }),
{
}

impl IRust {
    /// Write a text at the cursor in the given color, advancing the cursor
    /// model one column per character.
    pub fn write(&mut self, out: &str, color: Color) -> (cmds: Vec<TermCommand>)
        requires
            old(self).cursor.pos.current_pos.0 + out@.len() <= usize::MAX,
        ensures
            final(self).cursor.pos.current_pos.0 == old(self).cursor.pos.current_pos.0
                + out@.len(),
            final(self).cursor.pos.current_pos.1 == old(self).cursor.pos.current_pos.1,
            final(self).cursor.pos.starting_pos == old(self).cursor.pos.starting_pos,
            final(self).cursor.height == old(self).cursor.height,
            old(self).same_apart_from_cursor(*final(self)),
            cmds@ == seq![TermCommand::SetFg(color)] + write_char_cmds(out@) + seq![
                TermCommand::ResetColor,
            ],
    {
        let mut cmds: Vec<TermCommand> = Vec::new();
        cmds.push(TermCommand::SetFg(color));
        let n = out.unicode_len();
        let mut i: usize = 0;
        proof {
            assert(cmds@ =~= seq![TermCommand::SetFg(color)] + write_char_cmds(
                out@.subrange(0, 0),
            ));
        }
        while i < n
            invariant
                i <= n,
                n == out@.len(),
                old(self).cursor.pos.current_pos.0 + n <= usize::MAX,
                self.cursor.pos.current_pos.0 == old(self).cursor.pos.current_pos.0 + i,
                self.cursor.pos.current_pos.1 == old(self).cursor.pos.current_pos.1,
                self.cursor.pos.starting_pos == old(self).cursor.pos.starting_pos,
                self.cursor.height == old(self).cursor.height,
                old(self).same_apart_from_cursor(*self),
                cmds@ == seq![TermCommand::SetFg(color)] + write_char_cmds(
                    out@.subrange(0, i as int),
                ),
            decreases n - i,
        {
            let c = out.get_char(i);
            cmds.push(TermCommand::WriteChar(c));
            self.cursor.move_right_unbounded();
            proof {
                assert(write_char_cmds(out@.subrange(0, i + 1)) =~= write_char_cmds(
                    out@.subrange(0, i as int),
                ) + seq![TermCommand::WriteChar(out@[i as int])]);
                assert(cmds@ =~= seq![TermCommand::SetFg(color)] + write_char_cmds(
                    out@.subrange(0, i + 1),
                ));
            }
            i = i + 1;
        }
        cmds.push(TermCommand::ResetColor);
        proof {
            assert(out@.subrange(0, n as int) =~= out@);
            assert(cmds@ =~= seq![TermCommand::SetFg(color)] + write_char_cmds(out@) + seq![
                TermCommand::ResetColor,
            ]);
        }
        cmds
    }

    /// Write a text at an absolute position, without color management and
    /// without advancing the cursor model past the repositioning.
    pub fn write_str_at(&mut self, s: &str, x: usize, y: usize) -> (cmds: Vec<TermCommand>)
        ensures
            final(self).cursor.pos.current_pos == (x, y),
            final(self).cursor.pos.starting_pos == old(self).cursor.pos.starting_pos,
            final(self).cursor.height == old(self).cursor.height,
            old(self).same_apart_from_cursor(*final(self)),
            cmds@ == seq![TermCommand::Goto(x, y)] + write_char_cmds(s@),
    {
        let mut cmds: Vec<TermCommand> = Vec::new();
        cmds.push(TermCommand::Goto(x, y));
        self.cursor.goto(x, y);
        let n = s.unicode_len();
        let mut i: usize = 0;
        proof {
            assert(cmds@ =~= seq![TermCommand::Goto(x, y)] + write_char_cmds(s@.subrange(0, 0)));
        }
        while i < n
            invariant
                i <= n,
                n == s@.len(),
                self.cursor.pos.current_pos == (x, y),
                self.cursor.pos.starting_pos == old(self).cursor.pos.starting_pos,
                self.cursor.height == old(self).cursor.height,
                old(self).same_apart_from_cursor(*self),
                cmds@ == seq![TermCommand::Goto(x, y)] + write_char_cmds(s@.subrange(0, i as int)),
            decreases n - i,
        {
            let c = s.get_char(i);
            cmds.push(TermCommand::WriteChar(c));
            proof {
                assert(write_char_cmds(s@.subrange(0, i + 1)) =~= write_char_cmds(
                    s@.subrange(0, i as int),
                ) + seq![TermCommand::WriteChar(s@[i as int])]);
                assert(cmds@ =~= seq![TermCommand::Goto(x, y)] + write_char_cmds(
                    s@.subrange(0, i + 1),
                ));
            }
            i = i + 1;
        }
        proof {
            assert(s@.subrange(0, n as int) =~= s@);
        }
        cmds
    }

    /// Write a text in color starting at column zero of the current row:
    /// prompts and status lines left-align whatever the prior column was.
    pub fn write_from_terminal_start(&mut self, out: &str, color: Color) -> (cmds: Vec<
        TermCommand,
    >)
        requires
            out@.len() <= usize::MAX,
        ensures
            final(self).cursor.pos.current_pos.0 == out@.len(),
            final(self).cursor.pos.current_pos.1 == old(self).cursor.pos.current_pos.1,
            final(self).cursor.pos.starting_pos == old(self).cursor.pos.starting_pos,
            final(self).cursor.height == old(self).cursor.height,
            old(self).same_apart_from_cursor(*final(self)),
            cmds@ == seq![TermCommand::Goto(0, old(self).cursor.pos.current_pos.1)] + seq![
                TermCommand::SetFg(color),
            ] + write_char_cmds(out@) + seq![TermCommand::ResetColor],
    {
        let mut cmds: Vec<TermCommand> = Vec::new();
        let row = self.cursor.pos.current_pos.1;
        cmds.push(TermCommand::Goto(0, row));
        self.cursor.goto(0, row);
        let mut rest = self.write(out, color);
        cmds.append(&mut rest);
        proof {
            assert(cmds@ =~= seq![TermCommand::Goto(0, old(self).cursor.pos.current_pos.1)]
                + seq![TermCommand::SetFg(color)] + write_char_cmds(out@) + seq![
                TermCommand::ResetColor,
            ]);
        }
        cmds
    }

    /// Move to the next line.  On the last terminal row the viewport is
    /// scrolled up first — scrolling after moving would have put the cursor
    /// off screen — and the input anchor is re-set to the new row.
    pub fn write_newline(&mut self) -> (cmds: Vec<TermCommand>)
        requires
            old(self).cursor.wf(),
        ensures
            final(self).cursor == spec_write_newline(old(self).cursor),
            final(self).cursor.wf(),
            final(self).cursor.pos.starting_pos.1 == final(self).cursor.pos.current_pos.1,
            old(self).same_apart_from_cursor(*final(self)),
            cmds@ == if old(self).cursor.pos.current_pos.1 == old(self).cursor.height - 1 {
                seq![
                    TermCommand::ScrollUp(1),
                    TermCommand::MoveUp(1),
                    TermCommand::MoveDown(1),
                ]
            } else {
                seq![TermCommand::MoveDown(1)]
            },
    {
        let mut cmds: Vec<TermCommand> = Vec::new();
        if self.cursor.is_at_last_terminal_row() {
            let mut sc = self.scroll_up(1);
            cmds.append(&mut sc);
        }
        cmds.push(TermCommand::MoveDown(1));
        self.cursor.move_down(1);
        self.cursor.use_current_row_as_starting_row();
        proof {
            if old(self).cursor.pos.current_pos.1 == old(self).cursor.height - 1 {
                assert(cmds@ =~= seq![
                    TermCommand::ScrollUp(1),
                    TermCommand::MoveUp(1),
                    TermCommand::MoveDown(1),
                ]);
            } else {
                assert(cmds@ =~= seq![TermCommand::MoveDown(1)]);
            }
        }
        cmds
    }

    /// Clear the whole screen, reset the input anchor to the origin, move
    /// past the prompt column and render the current input line once.
    pub fn clear(&mut self) -> (cmds: Vec<TermCommand>)
        requires
            4 + old(self).buffer.text@.len() <= usize::MAX,
            2 <= old(self).cursor.height,
        ensures
            final(self).cursor.pos.starting_pos == (0usize, 0usize),
            final(self).cursor.pos.current_pos.1 == 0,
            final(self).cursor.pos.current_pos.0 == 4 + old(self).buffer.text@.len(),
            final(self).cursor.height == old(self).cursor.height,
            final(self).cursor.wf(),
            final(self).buffer.pos == 0,
            final(self).buffer.text == old(self).buffer.text,
            final(self).racer == old(self).racer,
            final(self).options == old(self).options,
            final(self).repl_lines == old(self).repl_lines,
            cmds@ == seq![TermCommand::Clear(ClearType::All), TermCommand::Goto(4, 0)]
                + write_char_cmds(old(self).buffer.text@),
    {
        let mut cmds: Vec<TermCommand> = Vec::new();
        cmds.push(TermCommand::Clear(ClearType::All));
        self.buffer.goto_start();
        self.cursor.pos.starting_pos = (0, 0);
        cmds.push(TermCommand::Goto(4, 0));
        self.cursor.goto(4, 0);
        let mut w = self.write_input();
        cmds.append(&mut w);
        proof {
            assert(cmds@ =~= seq![TermCommand::Clear(ClearType::All), TermCommand::Goto(4, 0)]
                + write_char_cmds(old(self).buffer.text@));
        }
        cmds
    }

    /// Render the current input line at the cursor, advancing the cursor
    /// model one column per character.
    pub fn write_input(&mut self) -> (cmds: Vec<TermCommand>)
        requires
            old(self).cursor.pos.current_pos.0 + old(self).buffer.text@.len() <= usize::MAX,
        ensures
            final(self).cursor.pos.current_pos.0 == old(self).cursor.pos.current_pos.0 + old(
                self,
            ).buffer.text@.len(),
            final(self).cursor.pos.current_pos.1 == old(self).cursor.pos.current_pos.1,
            final(self).cursor.pos.starting_pos == old(self).cursor.pos.starting_pos,
            final(self).cursor.height == old(self).cursor.height,
            old(self).same_apart_from_cursor(*final(self)),
            cmds@ == write_char_cmds(old(self).buffer.text@),
    {
        let mut cmds: Vec<TermCommand> = Vec::new();
        let n = self.buffer.len();
        let mut i: usize = 0;
        proof {
            assert(cmds@ =~= write_char_cmds(self.buffer.text@.subrange(0, 0)));
        }
        while i < n
            invariant
                i <= n,
                n == self.buffer.text@.len(),
                old(self).cursor.pos.current_pos.0 + n <= usize::MAX,
                self.cursor.pos.current_pos.0 == old(self).cursor.pos.current_pos.0 + i,
                self.cursor.pos.current_pos.1 == old(self).cursor.pos.current_pos.1,
                self.cursor.pos.starting_pos == old(self).cursor.pos.starting_pos,
                self.cursor.height == old(self).cursor.height,
                old(self).same_apart_from_cursor(*self),
                cmds@ == write_char_cmds(self.buffer.text@.subrange(0, i as int)),
            decreases n - i,
        {
            let c = self.buffer.text.as_str().get_char(i);
            cmds.push(TermCommand::WriteChar(c));
            self.cursor.move_right_unbounded();
            proof {
                assert(write_char_cmds(self.buffer.text@.subrange(0, i + 1)) =~= write_char_cmds(
                    self.buffer.text@.subrange(0, i as int),
                ) + seq![TermCommand::WriteChar(self.buffer.text@[i as int])]);
            }
            i = i + 1;
        }
        proof {
            assert(self.buffer.text@.subrange(0, n as int) =~= self.buffer.text@);
        }
        cmds
    }

    /// Scroll the viewport up by `n` lines and keep the cursor model and
    /// the input anchor consistent with the shifted content: both rows drop
    /// by `n`, stopping at zero.
    pub fn scroll_up(&mut self, n: usize) -> (cmds: Vec<TermCommand>)
        ensures
            final(self).cursor == spec_scroll_up_cursor(old(self).cursor, n as int),
            final(self).cursor.pos.starting_pos.1 as int == max(
                0,
                old(self).cursor.pos.starting_pos.1 - n,
            ),
            final(self).cursor.pos.current_pos.1 as int == max(
                0,
                old(self).cursor.pos.current_pos.1 - n,
            ),
            final(self).cursor.pos.current_pos.0 == old(self).cursor.pos.current_pos.0,
            final(self).cursor.pos.starting_pos.0 == old(self).cursor.pos.starting_pos.0,
            final(self).cursor.height == old(self).cursor.height,
            old(self).same_apart_from_cursor(*final(self)),
            cmds@ == seq![TermCommand::ScrollUp(n), TermCommand::MoveUp(n)],
    {
        let mut cmds: Vec<TermCommand> = Vec::new();
        cmds.push(TermCommand::ScrollUp(n));
        cmds.push(TermCommand::MoveUp(n));
        self.cursor.move_up(n);
        if self.cursor.pos.starting_pos.1 >= n {
            self.cursor.pos.starting_pos = (
                self.cursor.pos.starting_pos.0,
                self.cursor.pos.starting_pos.1 - n,
            );
        } else {
            self.cursor.pos.starting_pos = (self.cursor.pos.starting_pos.0, 0);
        }
        proof {
            assert(cmds@ =~= seq![TermCommand::ScrollUp(n), TermCommand::MoveUp(n)]);
        }
        cmds
    }
}

} // verus!
