//! Errors reported by the library.
use vstd::prelude::*;

verus! {

/// Failures reported by the cube and move operations.
#[derive(Debug, PartialEq, Eq, Structural)]
pub enum Error {
    /// A cube needs at least two cubits on an edge; holds the count that was given.
    InvalidNumberSides(usize),
    /// The layer selector of a move reaches past the cube's size.
    InvalidMoveLayer,
    /// A move that has no effect.
    UneffectiveMove,
    /// A directional axis was narrowed to a canonical one without normalisation.
    AxisConvert,
}

} // verus!
