//! The range normalizer: one unified bound specification over the index
//! domain, translated into a single canonical half-open range.

use vstd::prelude::*;

verus! {

/// Start of a bound specification over the index domain. An exclusive start
/// is unrepresentable by construction.
#[derive(Clone, Copy, Debug, PartialEq, Eq, Structural)]
pub enum StartBound {
    /// The range starts at the given index.
    Included(usize),
    /// No start given: the range starts at index 0.
    Unbounded,
}

/// End of a bound specification over the index domain.
#[derive(Clone, Copy, Debug, PartialEq, Eq, Structural)]
pub enum EndBound {
    /// An inclusive end bound `e`: it translates by subtracting one, so it
    /// normalizes to the half-open end `e - 1` and requires `e >= 1`.
    Included(usize),
    /// The range ends just before the given index.
    Excluded(usize),
    /// No end given: the range ends at the current backing length.
    Unbounded,
}

/// A full bound specification: one start bound and one end bound.
#[derive(Clone, Copy, Debug, PartialEq, Eq, Structural)]
pub struct Bounds {
    pub start: StartBound,
    pub end: EndBound,
}

impl Bounds {
    /// The canonical (inclusive) start index of the half-open range.
    pub open spec fn norm_start(self) -> int {
        match self.start {
            StartBound::Included(s) => s as int,
            StartBound::Unbounded => 0,
        }
    }

    /// The canonical (exclusive) end index of the half-open range, against a
    /// backing of length `len`.
    pub open spec fn norm_end(self, len: int) -> int {
        match self.end {
            EndBound::Included(e) => e - 1,
            EndBound::Excluded(e) => e as int,
            EndBound::Unbounded => len,
        }
    }

    /// Whether the end bound translates without subtracting past zero; an
    /// inclusive end at the domain's minimum value does not.
    pub open spec fn end_translatable(self) -> bool {
        match self.end {
            EndBound::Included(e) => e >= 1,
            EndBound::Excluded(_) => true,
            EndBound::Unbounded => true,
        }
    }

    /// Whether the normalized range is a well-formed extent of a backing of
    /// length `len`.
    pub open spec fn in_range(self, len: int) -> bool {
        0 <= self.norm_start() <= self.norm_end(len) <= len
    }
}

} // verus!
