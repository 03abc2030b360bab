//! Integer vectors and 3×3 matrices.
use vstd::prelude::*;

verus! {

/// Largest magnitude a vector component may have before a product with a
/// unit-entry matrix is no longer guaranteed to fit in an `i64`.
pub open spec fn component_limit() -> int {
    0x100_0000_0000
}

/// An integer 3-vector.
#[derive(Clone, Copy, Debug, PartialEq, Eq, Structural)]
pub struct Vec3 {
    pub x: i64,
    pub y: i64,
    pub z: i64,
}

/// A 3×3 integer matrix, stored by rows.
#[derive(Clone, Copy, Debug, PartialEq, Eq, Structural)]
pub struct Mat3 {
    pub r0: Vec3,
    pub r1: Vec3,
    pub r2: Vec3,
}

pub open spec fn dot(a: Vec3, b: Vec3) -> int {
    a.x * b.x + a.y * b.y + a.z * b.z
}

/// Every component lies within `component_limit()` in magnitude.
pub open spec fn bounded(v: Vec3) -> bool {
    &&& -component_limit() <= v.x <= component_limit()
    &&& -component_limit() <= v.y <= component_limit()
    &&& -component_limit() <= v.z <= component_limit()
}

/// Every component is -1, 0 or 1.
pub open spec fn unit_entries(v: Vec3) -> bool {
    &&& -1 <= v.x <= 1
    &&& -1 <= v.y <= 1
    &&& -1 <= v.z <= 1
}

/// The product `m × v`.
pub open spec fn mul_vec(m: Mat3, v: Vec3) -> Vec3 {
    Vec3 { x: dot(m.r0, v) as i64, y: dot(m.r1, v) as i64, z: dot(m.r2, v) as i64 }
}

impl Mat3 {
    /// Every entry is -1, 0 or 1.
    pub open spec fn has_unit_entries(self) -> bool {
        unit_entries(self.r0) && unit_entries(self.r1) && unit_entries(self.r2)
    }

    /// Builds a matrix from its entries given row by row.
    pub fn new(
        m11: i64,
        m12: i64,
        m13: i64,
        m21: i64,
        m22: i64,
        m23: i64,
        m31: i64,
        m32: i64,
        m33: i64,
    ) -> (r: Mat3)
        ensures
            r == (Mat3 {
                r0: Vec3 { x: m11, y: m12, z: m13 },
                r1: Vec3 { x: m21, y: m22, z: m23 },
                r2: Vec3 { x: m31, y: m32, z: m33 },
            }),
    {
        Mat3 {
            r0: Vec3 { x: m11, y: m12, z: m13 },
            r1: Vec3 { x: m21, y: m22, z: m23 },
            r2: Vec3 { x: m31, y: m32, z: m33 },
        }
    }

    /// Computes `self × v`.
    pub fn mul_vec(&self, v: &Vec3) -> (r: Vec3)
        requires
            self.has_unit_entries(),
            bounded(*v),
        ensures
            r == mul_vec(*self, *v),
    {
        Vec3 { x: row_dot(&self.r0, v), y: row_dot(&self.r1, v), z: row_dot(&self.r2, v) }
    }
}

fn unit_mul(a: i64, b: i64) -> (r: i64)
    requires
        -1 <= a <= 1,
        -component_limit() <= b <= component_limit(),
    ensures
        r == a * b,
        -component_limit() <= r <= component_limit(),
{
    proof {
        assert(-component_limit() <= a * b <= component_limit()) by (nonlinear_arith)
            requires
                -1 <= a <= 1,
                -component_limit() <= b <= component_limit(),
        ;
    }
    a * b
}

fn row_dot(row: &Vec3, v: &Vec3) -> (r: i64)
    requires
        unit_entries(*row),
        bounded(*v),
    ensures
        r == dot(*row, *v),
{
    unit_mul(row.x, v.x) + unit_mul(row.y, v.y) + unit_mul(row.z, v.z)
}

impl Vec3 {
    pub fn new(x: i64, y: i64, z: i64) -> (r: Vec3)
        ensures
            r == (Vec3 { x, y, z }),
    {
        Vec3 { x, y, z }
    }
}

} // verus!
