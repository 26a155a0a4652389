//! Line and column bookkeeping.

use crate::state::LF;
use vstd::prelude::*;

verus! {

/// The line of the byte that follows `byte`, where `byte` stood on `line`.
pub open spec fn line_after(line: nat, byte: u8) -> nat {
    if byte == LF {
        line + 1
    } else {
        line
    }
}

/// The column of the byte that follows `byte`, where `byte` stood in `col`.
pub open spec fn col_after(col: nat, byte: u8) -> nat {
    if byte == LF {
        0
    } else {
        col + 1
    }
}

/// The place of the next byte in the input.
///
/// Lines are counted from one and columns from zero. The tracker stores the
/// number of line feeds it has seen, so the line, which is one more, is never
/// zero.
#[derive(Debug, Clone, Copy, PartialEq, Eq, Structural)]
pub struct Position {
    /// How many line feeds have been consumed.
    pub line_feeds: u64,
    /// How many bytes have been consumed since the last line feed.
    pub col: u64,
}

impl Position {
    /// The line of the next byte, counted from one.
    pub open spec fn line(self) -> nat {
        (self.line_feeds + 1) as nat
    }

    /// The column of the next byte, counted from zero.
    pub open spec fn column(self) -> nat {
        self.col as nat
    }

    /// Whether both counters can take one more byte without overflow.
    pub open spec fn has_room(&self) -> bool {
        self.line_feeds < u64::MAX && self.col < u64::MAX
    }

    /// The place of the first byte of an input: line one, column zero.
    pub fn start() -> (position: Position)
        ensures
            position.line() == 1,
            position.column() == 0,
    {
        Position { line_feeds: 0, col: 0 }
    }

    /// Tests whether `advance` may be called.
    #[verifier::when_used_as_spec(has_room)]
    pub fn can_advance(&self) -> (room: bool)
        ensures
            room == self.has_room(),
    {
        self.line_feeds < u64::MAX && self.col < u64::MAX
    }

    /// The line of the next byte, counted from one.
    pub fn line_number(&self) -> (line: u64)
        requires
            self.line() <= u64::MAX,
        ensures
            line == self.line(),
    {
        self.line_feeds + 1
    }

    /// Moves past `byte`: a line feed starts a new line at column zero, any
    /// other byte moves one column to the right.
    pub fn advance(&mut self, byte: u8)
        requires
            old(self).has_room(),
        ensures
            final(self).line() == line_after(old(self).line(), byte),
            final(self).column() == col_after(old(self).column(), byte),
    {
        if byte == LF {
            self.line_feeds = self.line_feeds + 1;
            self.col = 0;
        } else {
            self.col = self.col + 1;
        }
    }
}

} // verus!
