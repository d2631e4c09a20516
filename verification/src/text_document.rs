//! Positions and line ranges inside a text document.
//!
//! A `Position` is a point in a document; a `Range` is the span between two
//! positions. For the streaming editor only the line numbers carry meaning:
//! an edit range identifies an absolute, inclusive span of lines, and the
//! column and byte fields are kept at zero.

use vstd::prelude::*;

verus! {

/// A point inside a document: a zero-based line, a column within the line,
/// and the byte offset of the point inside the whole document.
#[derive(Debug, Clone, Copy, PartialEq, Eq, Hash, Structural)]
pub struct Position {
    pub line: usize,
    pub character: usize,
    pub byte_offset: usize,
}

impl Position {
    pub fn new(line: usize, character: usize, byte_offset: usize) -> (r: Self)
        ensures
            r == (Position { line, character, byte_offset }),
    {
        Position { line, character, byte_offset }
    }

    pub open spec fn spec_line(&self) -> usize {
        self.line
    }

    #[verifier::when_used_as_spec(spec_line)]
    pub fn line(&self) -> (r: usize)
        ensures
            r == self.line,
    {
        self.line
    }

    pub open spec fn spec_character(&self) -> usize {
        self.character
    }

    #[verifier::when_used_as_spec(spec_character)]
    pub fn character(&self) -> (r: usize)
        ensures
            r == self.character,
    {
        self.character
    }

    pub open spec fn spec_byte_offset(&self) -> usize {
        self.byte_offset
    }

    #[verifier::when_used_as_spec(spec_byte_offset)]
    pub fn byte_offset(&self) -> (r: usize)
        ensures
            r == self.byte_offset,
    {
        self.byte_offset
    }
}

/// The span between two positions, both inclusive. The streaming editor
/// builds ranges whose positions carry line numbers only.
#[derive(Debug, Clone, Copy, PartialEq, Eq, Hash, Structural)]
pub struct Range {
    pub start_position: Position,
    pub end_position: Position,
}

impl Range {
    pub fn new(start_position: Position, end_position: Position) -> (r: Self)
        ensures
            r == (Range { start_position, end_position }),
    {
        Range { start_position, end_position }
    }

    pub open spec fn spec_start_line(&self) -> usize {
        self.start_position.line
    }

    #[verifier::when_used_as_spec(spec_start_line)]
    pub fn start_line(&self) -> (r: usize)
        ensures
            r == self.start_position.line,
    {
        self.start_position.line()
    }

    pub open spec fn spec_end_line(&self) -> usize {
        self.end_position.line
    }

    #[verifier::when_used_as_spec(spec_end_line)]
    pub fn end_line(&self) -> (r: usize)
        ensures
            r == self.end_position.line,
    {
        self.end_position.line()
    }

    pub open spec fn spec_start_position(&self) -> Position {
        self.start_position
    }

    #[verifier::when_used_as_spec(spec_start_position)]
    pub fn start_position(&self) -> (r: Position)
        ensures
            r == self.start_position,
    {
        self.start_position
    }

    pub open spec fn spec_end_position(&self) -> Position {
        self.end_position
    }

    #[verifier::when_used_as_spec(spec_end_position)]
    pub fn end_position(&self) -> (r: Position)
        ensures
            r == self.end_position,
    {
        self.end_position
    }

    /// The range covering the inclusive span of lines `start_line..=end_line`,
    /// with columns and byte offsets at zero.
    pub open spec fn spec_lines(start_line: usize, end_line: usize) -> Range {
        Range {
            start_position: Position { line: start_line, character: 0, byte_offset: 0 },
            end_position: Position { line: end_line, character: 0, byte_offset: 0 },
        }
    }

    /// Whether `self` wholly contains `other`, judged by line numbers alone.
    pub open spec fn spec_contains_line_span(&self, other: &Range) -> bool {
        self.spec_start_line() <= other.spec_start_line()
            && other.spec_end_line() <= self.spec_end_line()
    }

    #[verifier::when_used_as_spec(spec_contains_line_span)]
    pub fn contains_line_span(&self, other: &Range) -> (r: bool)
        ensures
            r == self.spec_contains_line_span(other),
    {
        self.start_line() <= other.start_line() && other.end_line() <= self.end_line()
    }
}

} // verus!
