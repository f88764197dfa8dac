//! A character cursor over a source text: current position, the start of
//! the token in progress, and a line/column pair for diagnostics.

use crate::lex::chars::str_to_chars;
use vstd::prelude::*;

verus! {

/// Where a scanned token sits in its source.
#[derive(Debug, Clone, Copy, PartialEq, Eq, Structural)]
pub struct Location {
    pub column: usize,
    pub length: usize,
    pub line: usize,
    pub start: usize,
}

/// A cursor over the characters of one source text.
pub struct Cursor {
    pub chars: Vec<char>,
    pub column: usize,
    pub current: usize,
    pub line: usize,
    pub start: usize,
}

impl Cursor {
    /// The source text under the cursor, as characters.
    pub open spec fn src(&self) -> Seq<char> {
        self.chars@
    }

    /// The cursor keeps its position inside the text (one past the end at
    /// most), the token start at or before it, and the column within the
    /// position (columns reset at line starts and step with the position).
    pub open spec fn wf(&self) -> bool {
        self.start <= self.current <= self.src().len() && self.column <= self.current
    }

    /// A cursor at the start of `source`, on line 1.
    pub fn new(source: &str) -> (r: Self)
        ensures
            r.src() == source@,
            r.wf(),
            r.current == 0 && r.start == 0 && r.column == 0 && r.line == 1,
    {
        Self { chars: str_to_chars(source), column: 0, current: 0, line: 1, start: 0 }
    }

    /// Whether the whole text has been consumed.
    pub fn is_at_end(&self) -> (r: bool)
        requires
            self.wf(),
        ensures
            r == (self.current == self.src().len()),
    {
        self.current >= self.chars.len()
    }

    /// The character under the cursor, if any; the cursor does not move.
    pub fn peek(&self) -> (r: Option<char>)
        requires
            self.wf(),
        ensures
            r == (if self.current < self.src().len() {
                Some(self.src()[self.current as int])
            } else {
                None::<char>
            }),
    {
        if self.current < self.chars.len() {
            Some(self.chars[self.current])
        } else {
            None
        }
    }

    /// Marks the current position as the start of the next token.
    pub fn sync(&mut self)
        ensures
            *final (self) == (Cursor { start: old(self).current, ..*old(self) }),
    {
        self.start = self.current;
    }

    /// Consumes and returns the character under the cursor; position and
    /// column advance by one. `None` at the end of the text.
    pub fn advance(&mut self) -> (r: Option<char>)
        requires
            old(self).wf(),
        ensures
            final (self).wf(),
            final (self).src() == old(self).src(),
            final (self).start == old(self).start,
            final (self).line == old(self).line,
            (r is Some <==> old(self).current < old(self).src().len()),
            r matches Some(c) ==> {
                &&& c == old(self).src()[old(self).current as int]
                &&& final (self).current == old(self).current + 1
                &&& final (self).column == old(self).column + 1
            },
            r is None ==> *final (self) == *old(self),
    {
        let n = self.chars.len();
        if self.current >= n {
            None
        } else {
            self.column = self.column + 1;
            self.current = self.current + 1;
            Some(self.chars[self.current - 1])
        }
    }

    /// Starts a new line: the line count steps, the column resets.
    pub fn advance_line(&mut self)
        requires
            old(self).line < usize::MAX,
        ensures
            *final (self) == (Cursor { line: (old(self).line + 1) as usize, column: 0, ..*old(self) }),
    {
        self.line = self.line + 1;
        self.column = 0;
    }

    /// The location of the token in progress: its start, a length running
    /// one past the characters consumed, and the line/column of its end.
    pub fn location(&self) -> (r: Location)
        requires
            self.start <= self.current < usize::MAX,
        ensures
            r == (Location {
                column: self.column,
                length: (self.current - self.start + 1) as usize,
                line: self.line,
                start: self.start,
            }),
            r.length >= 1,
    {
        Location {
            column: self.column,
            length: self.current - self.start + 1,
            line: self.line,
            start: self.start,
        }
    }
}

} // verus!
