//! Moves: which face, which layers, which turn, and the matching rotation.
use vstd::prelude::*;

use crate::error::Error;
use crate::matrix::Mat3;

verus! {

/// Which layers a move acts on, measured inward from the face it names.
#[derive(Clone, Copy, Debug, PartialEq, Eq, Structural)]
pub enum LayerInner {
    /// One layer; `Single(0)` is the outermost one.
    Single(usize),
    /// The given number of layers, starting from the face.
    Multiple(usize),
    /// Every layer: the whole cube turns.
    WholeCube,
}

/// The selector for the layers a `Layer` names.
pub open spec fn layer_inner(l: Layer) -> LayerInner {
    match l {
        Layer::Single(s) => LayerInner::Single(s),
        Layer::Multiple(m) => LayerInner::Multiple(m),
    }
}

impl From<Layer> for LayerInner {
    fn from(l: Layer) -> (r: LayerInner) {
        match l {
            Layer::Single(s) => LayerInner::Single(s),
            Layer::Multiple(m) => LayerInner::Multiple(m),
        }
    }
}

impl vstd::std_specs::convert::FromSpecImpl<Layer> for LayerInner {
    open spec fn obeys_from_spec() -> bool {
        true
    }

    open spec fn from_spec(l: Layer) -> LayerInner {
        layer_inner(l)
    }
}

/// A directional axis: one of the six faces, named by the outward direction
/// of that face.
#[derive(Clone, Copy, Debug, PartialEq, Eq, Structural)]
pub enum AxisInner {
    X,
    NegX,
    Y,
    NegY,
    Z,
    NegZ,
}

/// The directional axis pointing along a canonical axis.
pub open spec fn axis_inner(a: Axis) -> AxisInner {
    match a {
        Axis::X => AxisInner::X,
        Axis::Y => AxisInner::Y,
        Axis::Z => AxisInner::Z,
    }
}

impl From<Axis> for AxisInner {
    fn from(a: Axis) -> (r: AxisInner) {
        match a {
            Axis::X => AxisInner::X,
            Axis::Y => AxisInner::Y,
            Axis::Z => AxisInner::Z,
        }
    }
}

impl vstd::std_specs::convert::FromSpecImpl<Axis> for AxisInner {
    open spec fn obeys_from_spec() -> bool {
        true
    }

    open spec fn from_spec(a: Axis) -> AxisInner {
        axis_inner(a)
    }
}

/// Which layer(s) to affect when making the move.
#[derive(Clone, Copy, Debug, PartialEq, Eq, Structural)]
pub enum Layer {
    /// Affect a single layer (indexed at 0).
    Single(usize),
    /// Affect this many layers, counted from the named face.
    Multiple(usize),
}

/// A canonical axis to rotate the cube around.
#[derive(Clone, Copy, Debug, PartialEq, Eq, Structural)]
pub enum Axis {
    X,
    Y,
    Z,
}

/// The canonical axis a directional axis lies on.
pub open spec fn canonical_axis(a: AxisInner) -> Axis {
    match a {
        AxisInner::X | AxisInner::NegX => Axis::X,
        AxisInner::Y | AxisInner::NegY => Axis::Y,
        AxisInner::Z | AxisInner::NegZ => Axis::Z,
    }
}

/// The directional axis points against its canonical axis.
pub open spec fn is_negative(a: AxisInner) -> bool {
    a == AxisInner::NegX || a == AxisInner::NegY || a == AxisInner::NegZ
}

/// Narrows a positive directional axis to its canonical axis; a negative one
/// has no such counterpart and is refused.
pub open spec fn axis_of(a: AxisInner) -> Result<Axis, Error> {
    if is_negative(a) {
        Err(Error::AxisConvert)
    } else {
        Ok(canonical_axis(a))
    }
}

impl TryFrom<AxisInner> for Axis {
    type Error = Error;

    fn try_from(value: AxisInner) -> (r: Result<Axis, Error>) {
        match value {
            AxisInner::X => Ok(Axis::X),
            AxisInner::Y => Ok(Axis::Y),
            AxisInner::Z => Ok(Axis::Z),
            AxisInner::NegX | AxisInner::NegY | AxisInner::NegZ => Err(Error::AxisConvert),
        }
    }
}

impl vstd::std_specs::convert::TryFromSpecImpl<AxisInner> for Axis {
    open spec fn obeys_try_from_spec() -> bool {
        true
    }

    open spec fn try_from_spec(v: AxisInner) -> Result<Axis, Error> {
        axis_of(v)
    }
}

/// What type of move to do.
#[derive(Clone, Copy, Debug, PartialEq, Eq, Structural)]
pub enum MoveType {
    /// Rotate clockwise
    Clockwise,
    /// Rotate counter-clockwise
    CounterClockwise,
    /// Rotate twice
    Twice,
}

/// The turn that undoes `t`.
pub open spec fn inverse(t: MoveType) -> MoveType {
    match t {
        MoveType::Clockwise => MoveType::CounterClockwise,
        MoveType::CounterClockwise => MoveType::Clockwise,
        MoveType::Twice => MoveType::Twice,
    }
}

impl MoveType {
    /// The turn in the other direction; `Twice` is its own opposite.
    pub fn opposite(&self) -> (r: MoveType)
        ensures
            r == inverse(*self),
    {
        match self {
            MoveType::Clockwise => MoveType::CounterClockwise,
            MoveType::CounterClockwise => MoveType::Clockwise,
            MoveType::Twice => MoveType::Twice,
        }
    }
}

/// Describe how to move the cube.
///
/// Any combination of fields is a valid description; whether the layer
/// selector fits a given cube is checked when the move is applied.
#[derive(Clone, Copy, Debug, PartialEq, Eq, Structural)]
pub struct Move {
    pub move_type: MoveType,
    pub axis: AxisInner,
    pub affected_range: LayerInner,
}

/// The rotation for a turn about a canonical axis, as seen from outside the
/// face on the positive side of that axis.
pub open spec fn rotation_table(axis: Axis, t: MoveType) -> Mat3 {
    match (axis, t) {
        (Axis::X, MoveType::Clockwise) => mat(1, 0, 0, 0, 0, 1, 0, -1i64, 0),
        (Axis::X, MoveType::CounterClockwise) => mat(1, 0, 0, 0, 0, -1i64, 0, 1, 0),
        (Axis::X, MoveType::Twice) => mat(1, 0, 0, 0, -1i64, 0, 0, 0, -1i64),
        (Axis::Y, MoveType::Clockwise) => mat(0, 0, -1i64, 0, 1, 0, 1, 0, 0),
        (Axis::Y, MoveType::CounterClockwise) => mat(0, 0, 1, 0, 1, 0, -1i64, 0, 0),
        (Axis::Y, MoveType::Twice) => mat(-1i64, 0, 0, 0, 1, 0, 0, 0, -1i64),
        (Axis::Z, MoveType::Clockwise) => mat(0, 1, 0, -1i64, 0, 0, 0, 0, 1),
        (Axis::Z, MoveType::CounterClockwise) => mat(0, -1i64, 0, 1, 0, 0, 0, 0, 1),
        (Axis::Z, MoveType::Twice) => mat(-1i64, 0, 0, 0, -1i64, 0, 0, 0, 1),
    }
}

/// The matrix with the given entries, row by row.
pub open spec fn mat(
    m11: i64,
    m12: i64,
    m13: i64,
    m21: i64,
    m22: i64,
    m23: i64,
    m31: i64,
    m32: i64,
    m33: i64,
) -> Mat3 {
    Mat3 {
        r0: crate::matrix::Vec3 { x: m11, y: m12, z: m13 },
        r1: crate::matrix::Vec3 { x: m21, y: m22, z: m23 },
        r2: crate::matrix::Vec3 { x: m31, y: m32, z: m33 },
    }
}

impl Move {
    /// The canonical axis of the move, with the turn inverted when the move
    /// names the face on the negative side of that axis.
    pub open spec fn normalized(self) -> (Axis, MoveType) {
        if is_negative(self.axis) {
            (canonical_axis(self.axis), inverse(self.move_type))
        } else {
            (canonical_axis(self.axis), self.move_type)
        }
    }

    /// The rigid motion this move applies to the pieces it selects.
    pub open spec fn spec_rotation_matrix(self) -> Mat3 {
        rotation_table(self.normalized().0, self.normalized().1)
    }

    /// Rotate the top side of the cube.
    pub fn rotate_top(layer: Layer, move_type: MoveType) -> (r: Move)
        ensures
            r == (Move { move_type, axis: AxisInner::Z, affected_range: layer_inner(layer) }),
    {
        Move { move_type, axis: AxisInner::Z, affected_range: layer.into() }
    }

    /// Rotate the bottom side of the cube.
    pub fn rotate_bottom(layer: Layer, move_type: MoveType) -> (r: Move)
        ensures
            r == (Move {
                move_type,
                axis: AxisInner::NegZ,
                affected_range: layer_inner(layer),
            }),
    {
        Move { move_type, axis: AxisInner::NegZ, affected_range: layer.into() }
    }

    /// Rotate the left side of the cube.
    pub fn rotate_left(layer: Layer, move_type: MoveType) -> (r: Move)
        ensures
            r == (Move {
                move_type,
                axis: AxisInner::NegY,
                affected_range: layer_inner(layer),
            }),
    {
        Move { move_type, axis: AxisInner::NegY, affected_range: layer.into() }
    }

    /// Rotate the right side of the cube.
    pub fn rotate_right(layer: Layer, move_type: MoveType) -> (r: Move)
        ensures
            r == (Move { move_type, axis: AxisInner::Y, affected_range: layer_inner(layer) }),
    {
        Move { move_type, axis: AxisInner::Y, affected_range: layer.into() }
    }

    /// Rotate the front side of the cube.
    pub fn rotate_front(layer: Layer, move_type: MoveType) -> (r: Move)
        ensures
            r == (Move { move_type, axis: AxisInner::X, affected_range: layer_inner(layer) }),
    {
        Move { move_type, axis: AxisInner::X, affected_range: layer.into() }
    }

    /// Rotate the back side of the cube.
    pub fn rotate_back(layer: Layer, move_type: MoveType) -> (r: Move)
        ensures
            r == (Move {
                move_type,
                axis: AxisInner::NegX,
                affected_range: layer_inner(layer),
            }),
    {
        Move { move_type, axis: AxisInner::NegX, affected_range: layer.into() }
    }

    /// Rotate the whole cube around an axis.
    pub fn rotate_cube(axis: Axis, move_type: MoveType) -> (r: Move)
        ensures
            r == (Move {
                move_type,
                axis: axis_inner(axis),
                affected_range: LayerInner::WholeCube,
            }),
    {
        Move { move_type, axis: axis.into(), affected_range: LayerInner::WholeCube }
    }

    /// The rigid motion this move applies, looked up by canonical axis and turn.
    pub fn rotation_matrix(&self) -> (r: Mat3)
        ensures
            r == self.spec_rotation_matrix(),
            r.has_unit_entries(),
    {
        match self.normalize_axis_move_type() {
            (Axis::X, MoveType::Clockwise) => Mat3::new(1, 0, 0, 0, 0, 1, 0, -1, 0),
            (Axis::X, MoveType::CounterClockwise) => Mat3::new(1, 0, 0, 0, 0, -1, 0, 1, 0),
            (Axis::X, MoveType::Twice) => Mat3::new(1, 0, 0, 0, -1, 0, 0, 0, -1),
            (Axis::Y, MoveType::Clockwise) => Mat3::new(0, 0, -1, 0, 1, 0, 1, 0, 0),
            (Axis::Y, MoveType::CounterClockwise) => Mat3::new(0, 0, 1, 0, 1, 0, -1, 0, 0),
            (Axis::Y, MoveType::Twice) => Mat3::new(-1, 0, 0, 0, 1, 0, 0, 0, -1),
            (Axis::Z, MoveType::Clockwise) => Mat3::new(0, 1, 0, -1, 0, 0, 0, 0, 1),
            (Axis::Z, MoveType::CounterClockwise) => Mat3::new(0, -1, 0, 1, 0, 0, 0, 0, 1),
            (Axis::Z, MoveType::Twice) => Mat3::new(-1, 0, 0, 0, -1, 0, 0, 0, 1),
        }
    }

    /// Maps the move onto its canonical axis, inverting the turn for a face
    /// on the negative side.
    pub fn normalize_axis_move_type(&self) -> (r: (Axis, MoveType))
        ensures
            r == self.normalized(),
    {
        match self.axis {
            AxisInner::NegX => (Axis::X, self.move_type.opposite()),
            AxisInner::NegY => (Axis::Y, self.move_type.opposite()),
            AxisInner::NegZ => (Axis::Z, self.move_type.opposite()),
            AxisInner::X | AxisInner::Y | AxisInner::Z => {
                match Axis::try_from(self.axis) {
                    Ok(a) => (a, self.move_type),
                    Err(_) => {
                        proof {
                            assert(false);
                        }
                        (Axis::X, self.move_type)
                    },
                }
            },
        }
    }
}

} // verus!
