//! Plain descriptions of terminal mutations.
//!
//! The library never touches a terminal itself.  Every operation that the
//! original screen writer performed on the live terminal is emitted as a
//! `TermCommand` value; the surrounding program replays the commands on the
//! real device.  This keeps the coordinate bookkeeping, which is the part
//! worth proving, fully inside verified code.

use vstd::prelude::*;

verus! {

/// Foreground colors a write may ask for.
#[derive(Clone, Copy, PartialEq, Eq, Structural, Debug)]
pub enum Color {
    Black,
    Blue,
    Cyan,
    DarkBlue,
    DarkCyan,
    DarkGreen,
    DarkMagenta,
    DarkRed,
    DarkYellow,
    Green,
    Grey,
    Magenta,
    Red,
    White,
    Yellow,
}

/// The screen region a clear command erases.
#[derive(Clone, Copy, PartialEq, Eq, Structural, Debug)]
pub enum ClearType {
    /// The whole screen.
    All,
    /// From the cursor to the end of the current line.
    UntilNewLine,
}

/// One primitive terminal mutation, in the order it must be replayed.
#[derive(Clone, Copy, PartialEq, Eq, Debug)]
pub enum TermCommand {
    /// Set the foreground color for subsequent writes.
    SetFg(Color),
    /// Restore the default colors.
    ResetColor,
    /// Write one character at the terminal cursor.
    WriteChar(char),
    /// Move the terminal cursor to an absolute (column, row).
    Goto(usize, usize),
    /// Move the terminal cursor up by a number of rows.
    MoveUp(usize),
    /// Move the terminal cursor down by a number of rows.
    MoveDown(usize),
    /// Scroll the viewport up by a number of lines.
    ScrollUp(usize),
    /// Erase a region of the screen.
    Clear(ClearType),
    /// Remember the terminal cursor position.
    SavePosition,
    /// Return the terminal cursor to the remembered position.
    RestorePosition,
}

/// The command that writes one character.
pub open spec fn write_char(c: char) -> TermCommand {
    TermCommand::WriteChar(c)
}

/// The commands that write a text character by character.
pub open spec fn write_char_cmds(s: Seq<char>) -> Seq<TermCommand>
    decreases s.len(),
{
    if s.len() == 0 {
        Seq::<TermCommand>::empty()
    } else {
        write_char_cmds(s.drop_last()).push(write_char(s.last()))
    }
}

/// What a text written character by character emits: one `WriteChar` per
/// character, in order.
pub broadcast proof fn lemma_write_char_cmds(s: Seq<char>)
    ensures
        (#[trigger] write_char_cmds(s)).len() == s.len(),
        forall|i: int|
            0 <= i < s.len() ==> write_char_cmds(s)[i] == TermCommand::WriteChar(s[i]),
    decreases s.len(),
{
    if s.len() > 0 {
        lemma_write_char_cmds(s.drop_last());
        assert forall|i: int|
            0 <= i < s.len() implies write_char_cmds(s)[i] == TermCommand::WriteChar(s[i]) by {
            if i < s.len() - 1 {
                assert(write_char_cmds(s)[i] == write_char_cmds(s.drop_last())[i]);
                assert(s.drop_last()[i] == s[i]);
            }
        }
    }
}

} // verus!
