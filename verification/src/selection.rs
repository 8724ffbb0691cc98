//! Stretches of a document, as the editor counts them: in characters.

use vstd::prelude::*;

verus! {

/// A stretch of a document between two characters. The cursor is at `head`.
#[derive(Debug, Clone, Copy, PartialEq, Eq, Structural)]
pub struct Range {
    pub anchor: usize,
    pub head: usize,
}

impl Range {
    /// Where the range begins.
    pub open spec fn start(self) -> int {
        if self.anchor <= self.head {
            self.anchor as int
        } else {
            self.head as int
        }
    }

    /// Where the range ends.
    pub open spec fn end(self) -> int {
        if self.anchor <= self.head {
            self.head as int
        } else {
            self.anchor as int
        }
    }

    /// Whether the character at `pos` lies in the range.
    pub open spec fn holds(self, pos: int) -> bool {
        self.start() <= pos < self.end()
    }

    /// Whether two ranges begin at the same place, or each begins before the
    /// other ends.
    pub open spec fn meets(self, other: Range) -> bool {
        self.start() == other.start() || (self.end() > other.start() && other.end() > self.start())
    }

    /// The same stretch with the cursor at the other end.
    pub open spec fn flipped(self) -> Range {
        Range { anchor: self.head, head: self.anchor }
    }

    /// An empty range at `pos`.
    pub fn point(pos: usize) -> (range: Range)
        ensures
            range == (Range { anchor: pos, head: pos }),
    {
        Range { anchor: pos, head: pos }
    }

    /// Where the range begins.
    pub fn from(&self) -> (pos: usize)
        ensures
            pos == self.start(),
    {
        if self.anchor <= self.head {
            self.anchor
        } else {
            self.head
        }
    }

    /// Where the range ends.
    pub fn to(&self) -> (pos: usize)
        ensures
            pos == self.end(),
    {
        if self.anchor <= self.head {
            self.head
        } else {
            self.anchor
        }
    }

    /// How many characters the range holds.
    pub fn len(&self) -> (count: usize)
        ensures
            count == self.end() - self.start(),
    {
        self.to() - self.from()
    }

    /// Whether the character at `pos` lies in the range.
    pub fn contains(&self, pos: usize) -> (inside: bool)
        ensures
            inside == self.holds(pos as int),
    {
        self.from() <= pos && pos < self.to()
    }

    /// Whether two ranges overlap.
    pub fn overlaps(&self, other: &Range) -> (overlap: bool)
        ensures
            overlap == self.meets(*other),
    {
        self.from() == other.from() || (self.to() > other.from() && other.to() > self.from())
    }

    /// The same stretch with the cursor at the other end.
    pub fn flip(&self) -> (range: Range)
        ensures
            range == self.flipped(),
    {
        Range { anchor: self.head, head: self.anchor }
    }
}

/// Whether ranges overlap does not depend on their order, nor on which end the
/// cursors are at.
pub proof fn law_overlap_is_symmetric(one: Range, other: Range)
    ensures
        one.meets(other) == other.meets(one),
        one.meets(other) == one.flipped().meets(other),
{
}

/// Two ranges that are not empty overlap exactly where they share a character.
pub proof fn law_overlap_shares_a_character(one: Range, other: Range)
    requires
        one.start() < one.end(),
        other.start() < other.end(),
    ensures
        one.meets(other) <==> exists|pos: int| one.holds(pos) && other.holds(pos),
{
    if one.meets(other) {
        let pos = if one.start() <= other.start() {
            other.start()
        } else {
            one.start()
        };
        assert(one.holds(pos) && other.holds(pos));
    }
}

/// To flip a range keeps its characters, and to flip it twice changes nothing.
/// A range whose head is behind its anchor has its cursor at the start once it
/// is flipped.
pub proof fn law_flip(range: Range, pos: int)
    ensures
        range.flipped().holds(pos) == range.holds(pos),
        range.flipped().flipped() == range,
        range.anchor <= range.head ==> range.flipped().head == range.start(),
{
}

/// A range lies between its two ends, whichever of them the cursor is at: it holds
/// a character exactly where one end is at or before it and the other behind it.
pub proof fn law_range_lies_between_its_ends(range: Range, pos: int)
    ensures
        range.start() <= range.anchor <= range.end(),
        range.start() <= range.head <= range.end(),
        range.start() == range.anchor || range.start() == range.head,
        range.end() == range.anchor || range.end() == range.head,
        range.holds(pos) <==> (range.anchor <= pos < range.head || range.head <= pos
            < range.anchor),
        range.flipped().anchor == range.head,
        range.flipped().head == range.anchor,
{
}

/// An empty range overlaps another one exactly where it is at the start of it, or
/// inside it.
pub proof fn law_overlap_of_an_empty_range(pos: usize, other: Range)
    ensures
        (Range { anchor: pos, head: pos }).meets(other) <==> pos == other.start() || other.start()
            < pos < other.end(),
{
}

} // verus!
