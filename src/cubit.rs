//! A single piece of the puzzle.
use vstd::prelude::*;

use crate::matrix::{bounded, mul_vec, Mat3, Vec3};

verus! {

/// A single piece of the puzzle: where it sits and which way it faces.
///
/// The three axis vectors record where the piece's own x, y and z directions
/// point; a piece in standard orientation has them equal to the unit vectors.
#[derive(Clone, Copy, Debug, PartialEq, Eq, Structural)]
pub struct Cubit {
    pub position: Vec3,
    pub x_axis: Vec3,
    pub y_axis: Vec3,
    pub z_axis: Vec3,
}

pub open spec fn unit_x() -> Vec3 {
    Vec3 { x: 1, y: 0, z: 0 }
}

pub open spec fn unit_y() -> Vec3 {
    Vec3 { x: 0, y: 1, z: 0 }
}

pub open spec fn unit_z() -> Vec3 {
    Vec3 { x: 0, y: 0, z: 1 }
}

/// A piece at `p` in standard orientation.
pub open spec fn std_cubit(p: Vec3) -> Cubit {
    Cubit { position: p, x_axis: unit_x(), y_axis: unit_y(), z_axis: unit_z() }
}

/// `v` is `+e` or `-e` for one of the three unit vectors `e`.
pub open spec fn signed_unit(v: Vec3) -> bool {
    ||| (v.x == 1 || v.x == -1) && v.y == 0 && v.z == 0
    ||| v.x == 0 && (v.y == 1 || v.y == -1) && v.z == 0
    ||| v.x == 0 && v.y == 0 && (v.z == 1 || v.z == -1)
}

/// Index of the non-zero component of a signed unit vector.
pub open spec fn direction_index(v: Vec3) -> int {
    if v.x != 0 {
        0
    } else if v.y != 0 {
        1
    } else {
        2
    }
}

/// The axis vectors are signed unit vectors along three different directions,
/// i.e. they form a signed permutation of the standard basis.
pub open spec fn orthonormal(c: Cubit) -> bool {
    &&& signed_unit(c.x_axis)
    &&& signed_unit(c.y_axis)
    &&& signed_unit(c.z_axis)
    &&& direction_index(c.x_axis) != direction_index(c.y_axis)
    &&& direction_index(c.x_axis) != direction_index(c.z_axis)
    &&& direction_index(c.y_axis) != direction_index(c.z_axis)
}

impl Cubit {
    /// The piece after the rigid motion `m`, applied to its position and to
    /// each of its axis vectors.
    pub open spec fn rotated_by(self, m: Mat3) -> Cubit {
        Cubit {
            position: mul_vec(m, self.position),
            x_axis: mul_vec(m, self.x_axis),
            y_axis: mul_vec(m, self.y_axis),
            z_axis: mul_vec(m, self.z_axis),
        }
    }

    /// All four vectors are small enough to be multiplied by a unit-entry matrix.
    pub open spec fn is_bounded(self) -> bool {
        bounded(self.position) && bounded(self.x_axis) && bounded(self.y_axis) && bounded(
            self.z_axis,
        )
    }

    fn new(pos: Vec3, xaxis: Vec3, yaxis: Vec3, zaxis: Vec3) -> (r: Cubit)
        ensures
            r == (Cubit { position: pos, x_axis: xaxis, y_axis: yaxis, z_axis: zaxis }),
    {
        Cubit { position: pos, x_axis: xaxis, y_axis: yaxis, z_axis: zaxis }
    }

    /// Creates a piece at `pos` in standard orientation. A cube made only of
    /// such pieces is solved.
    pub fn std_from_position(pos: Vec3) -> (r: Cubit)
        ensures
            r == std_cubit(pos),
    {
        let (ox, oy, oz) = new_std_orientation();
        Self::new(pos, ox, oy, oz)
    }

    /// Current position of the piece.
    pub fn get_position(&self) -> (r: Vec3)
        ensures
            r == self.position,
    {
        self.position
    }

    /// Applies `m` to the position and to the orientation at once.
    pub fn rotate(&mut self, m: &Mat3)
        requires
            m.has_unit_entries(),
            old(self).is_bounded(),
        ensures
            *final(self) == old(self).rotated_by(*m),
    {
        self.position = m.mul_vec(&self.position);
        self.x_axis = m.mul_vec(&self.x_axis);
        self.y_axis = m.mul_vec(&self.y_axis);
        self.z_axis = m.mul_vec(&self.z_axis);
    }
}

fn new_std_orientation() -> (r: (Vec3, Vec3, Vec3))
    ensures
        r == (unit_x(), unit_y(), unit_z()),
{
    (Vec3::new(1, 0, 0), Vec3::new(0, 1, 0), Vec3::new(0, 0, 1))
}

} // verus!
