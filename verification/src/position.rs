//! Positions in a text buffer and their ordering.

use core::cmp::Ordering;
use vstd::prelude::*;
use vstd::std_specs::cmp::PartialOrdSpecImpl;

verus! {

/// A position in text, consisting of a line number (0-based) and character column (0-based).
#[derive(Debug, Clone, Copy, PartialEq, Eq, Structural, Ord)]
pub struct Position {
    /// Zero-based line number.
    pub line: u32,
    /// Zero-based character offset in UTF-8 bytes.
    pub character: u32,
}

/// `a` stands strictly before `b` in the text: on an earlier line, or on the
/// same line at an earlier column.
pub open spec fn position_before(a: Position, b: Position) -> bool {
    a.line < b.line || (a.line == b.line && a.character < b.character)
}

/// The three-way comparison of two positions: by line, then by column.
pub open spec fn position_order(a: Position, b: Position) -> Ordering {
    if position_before(a, b) {
        Ordering::Less
    } else if position_before(b, a) {
        Ordering::Greater
    } else {
        Ordering::Equal
    }
}

impl Position {
    /// Create a new `Position`.
    pub fn new(line: u32, character: u32) -> (p: Self)
        ensures
            p.line == line,
            p.character == character,
    {
        Position { line, character }
    }
}

impl Default for Position {
    /// The start of the text: line 0, column 0.
    fn default() -> (p: Self)
        ensures
            p == (Position { line: 0, character: 0 }),
    {
        Position { line: 0, character: 0 }
    }
}

impl PartialOrd for Position {
    fn partial_cmp(&self, other: &Self) -> (r: Option<Ordering>) {
        if self.line < other.line {
            Some(Ordering::Less)
        } else if self.line > other.line {
            Some(Ordering::Greater)
        } else if self.character < other.character {
            Some(Ordering::Less)
        } else if self.character > other.character {
            Some(Ordering::Greater)
        } else {
            Some(Ordering::Equal)
        }
    }
}

impl PartialOrdSpecImpl for Position {
    open spec fn obeys_partial_cmp_spec() -> bool {
        true
    }

    open spec fn partial_cmp_spec(&self, other: &Self) -> Option<Ordering> {
        Some(position_order(*self, *other))
    }
}

/// Positions are totally ordered: of two positions exactly one stands before
/// the other, unless they are the same position.
pub proof fn lemma_position_order_total(a: Position, b: Position)
    ensures
        position_before(a, b) || a == b || position_before(b, a),
        !(position_before(a, b) && position_before(b, a)),
        !position_before(a, a),
{
}

/// Standing before another position is transitive.
pub proof fn lemma_position_before_transitive(a: Position, b: Position, c: Position)
    requires
        position_before(a, b),
        position_before(b, c),
    ensures
        position_before(a, c),
{
}

/// The comparison reports equality exactly for equal positions, and is
/// reversed when the two positions are swapped.
pub proof fn lemma_position_order_antisymmetric(a: Position, b: Position)
    ensures
        (position_order(a, b) == Ordering::Equal) <==> a == b,
        (position_order(a, b) == Ordering::Less) <==> (position_order(b, a) == Ordering::Greater),
{
}

} // verus!
