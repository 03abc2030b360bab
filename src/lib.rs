//! A model of an N×N×N twisty puzzle cube: its shell pieces, their
//! positions and orientations, and layer and whole-cube rotations.
use vstd::prelude::*;

pub mod cube;
pub mod cubit;
pub mod error;
pub mod laws;
pub mod matrix;
pub mod movement;
pub mod selection;
pub mod shell;

pub use cube::Cube;
pub use cubit::Cubit;
pub use error::Error;
pub use matrix::{Mat3, Vec3};
pub use movement::{Axis, Layer, Move, MoveType};

verus! {

} // verus!
