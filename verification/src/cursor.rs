//! The cursor model: current and starting screen coordinates of the logical
//! input region, tracked independently of the terminal writes themselves.
//!
//! Coordinates are `(column, row)` pairs, zero-based, with rows growing
//! downward.  `starting_pos` anchors the first screen cell of the current
//! logical input line; `current_pos` is where the next character would land.

use vstd::prelude::*;

verus! {

/// The two coordinates the model tracks, as `(column, row)` pairs.
#[derive(Clone, Copy, PartialEq, Eq, Debug)]
pub struct CursorPosition {
    /// Where the next character will be written.
    pub current_pos: (usize, usize),
    /// The first screen cell of the current logical input line.
    pub starting_pos: (usize, usize),
}

/// The cursor model together with the terminal height it is measured against.
#[derive(Clone, Copy, PartialEq, Eq, Debug)]
pub struct Cursor {
    pub pos: CursorPosition,
    /// Number of rows the terminal shows.  At least two: on a one-row
    /// terminal the scroll-then-descend step of a newline could not keep the
    /// cursor on screen.
    pub height: usize,
}

impl Cursor {
    /// The cursor is on screen and the anchor does not lie below it.
    pub open spec fn wf(self) -> bool {
        &&& 2 <= self.height
        &&& self.pos.current_pos.1 < self.height
        &&& self.pos.starting_pos.1 <= self.pos.current_pos.1
    }

    /// A cursor at the origin of a terminal with the given height.
    pub fn new(height: usize) -> (c: Cursor)
        requires
            2 <= height,
        ensures
            c.pos.current_pos == (0usize, 0usize),
            c.pos.starting_pos == (0usize, 0usize),
            c.height == height,
            c.wf(),
    {
        Cursor { pos: CursorPosition { current_pos: (0, 0), starting_pos: (0, 0) }, height }
    }

    /// The cursor after one unclamped move to the right.
    pub open spec fn spec_move_right_unbounded(self) -> Cursor
        recommends
            self.pos.current_pos.0 < usize::MAX,
    {
        Cursor {
            pos: CursorPosition {
                current_pos: ((self.pos.current_pos.0 + 1) as usize, self.pos.current_pos.1),
                starting_pos: self.pos.starting_pos,
            },
            ..self
        }
    }

    /// Advance one column.  The column is not clamped to the terminal width:
    /// line wrapping is the terminal's own behavior, accounted for by the
    /// screen writer's newline handling.
    pub fn move_right_unbounded(&mut self)
        requires
            old(self).pos.current_pos.0 < usize::MAX,
        ensures
            *final(self) == old(self).spec_move_right_unbounded(),
            final(self).pos.current_pos.0 == old(self).pos.current_pos.0 + 1,
            final(self).pos.current_pos.1 == old(self).pos.current_pos.1,
            final(self).pos.starting_pos == old(self).pos.starting_pos,
            final(self).height == old(self).height,
    {
        self.pos.current_pos = (self.pos.current_pos.0 + 1, self.pos.current_pos.1);
    }

    /// Descend `n` rows.
    pub fn move_down(&mut self, n: usize)
        requires
            old(self).pos.current_pos.1 + n <= usize::MAX,
        ensures
            final(self).pos.current_pos.1 == old(self).pos.current_pos.1 + n,
            final(self).pos.current_pos.0 == old(self).pos.current_pos.0,
            final(self).pos.starting_pos == old(self).pos.starting_pos,
            final(self).height == old(self).height,
    {
        self.pos.current_pos = (self.pos.current_pos.0, self.pos.current_pos.1 + n);
    }

    /// Ascend `n` rows, stopping at the top of the screen.
    pub fn move_up(&mut self, n: usize)
        ensures
            final(self).pos.current_pos.1 == if old(self).pos.current_pos.1 >= n {
                old(self).pos.current_pos.1 - n
            } else {
                0
            },
            final(self).pos.current_pos.0 == old(self).pos.current_pos.0,
            final(self).pos.starting_pos == old(self).pos.starting_pos,
            final(self).height == old(self).height,
    {
        if self.pos.current_pos.1 >= n {
            self.pos.current_pos = (self.pos.current_pos.0, self.pos.current_pos.1 - n);
        } else {
            self.pos.current_pos = (self.pos.current_pos.0, 0);
        }
    }

    /// Absolute repositioning, used before writes at arbitrary screen
    /// locations.
    pub fn goto(&mut self, x: usize, y: usize)
        ensures
            final(self).pos.current_pos == (x, y),
            final(self).pos.starting_pos == old(self).pos.starting_pos,
            final(self).height == old(self).height,
    {
        self.pos.current_pos = (x, y);
    }

    /// The cursor after re-anchoring the input line at the current row.
    pub open spec fn spec_use_current_row_as_starting_row(self) -> Cursor {
        Cursor {
            pos: CursorPosition {
                current_pos: self.pos.current_pos,
                starting_pos: (self.pos.starting_pos.0, self.pos.current_pos.1),
            },
            ..self
        }
    }

    /// Re-anchor the logical input line at the row the cursor is on.
    pub fn use_current_row_as_starting_row(&mut self)
        ensures
            *final(self) == old(self).spec_use_current_row_as_starting_row(),
            final(self).pos.starting_pos.1 == old(self).pos.current_pos.1,
            final(self).pos.starting_pos.0 == old(self).pos.starting_pos.0,
            final(self).pos.current_pos == old(self).pos.current_pos,
            final(self).height == old(self).height,
    {
        self.pos.starting_pos = (self.pos.starting_pos.0, self.pos.current_pos.1);
    }

    /// Whether a newline would run off the bottom of the screen, so that the
    /// viewport has to scroll first.
    pub fn is_at_last_terminal_row(&self) -> (r: bool)
        requires
            1 <= self.height,
        ensures
            r == (self.pos.current_pos.1 == self.height - 1),
    {
        self.pos.current_pos.1 == self.height - 1
    }

    /// The cursor after `n` unclamped moves to the right.
    pub open spec fn spec_move_right_n(self, n: nat) -> Cursor
        decreases n,
    {
        if n == 0 {
            self
        } else {
            self.spec_move_right_n((n - 1) as nat).spec_move_right_unbounded()
        }
    }

    /// Law: any sequence of `n` unclamped right moves starting at column `c`
    /// ends at column `c + n`, touching nothing else.
    pub proof fn lemma_move_right_unbounded_accumulates(self, n: nat)
        requires
            self.pos.current_pos.0 + n <= usize::MAX,
        ensures
            self.spec_move_right_n(n).pos.current_pos.0 == self.pos.current_pos.0 + n,
            self.spec_move_right_n(n).pos.current_pos.1 == self.pos.current_pos.1,
            self.spec_move_right_n(n).pos.starting_pos == self.pos.starting_pos,
            self.spec_move_right_n(n).height == self.height,
        decreases n,
    {
        if n > 0 {
            self.lemma_move_right_unbounded_accumulates((n - 1) as nat);
        }
    }
}

} // verus!
