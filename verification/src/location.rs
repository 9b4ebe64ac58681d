//! Places in the source text that a node of the tree came from.

use vstd::prelude::*;

verus! {

/// A position in the source text.
#[derive(Clone, Copy, Debug, PartialEq, Eq)]
pub struct Location {
    pub row: usize,
    pub column: usize,
}

/// The stretch of source text between two positions.
#[derive(Clone, Copy, Debug, PartialEq, Eq)]
pub struct Span {
    pub start: Location,
    pub end: Location,
}

} // verus!
