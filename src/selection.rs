//! Which pieces a move acts on, and what it does to them.
use vstd::prelude::*;

use crate::cubit::{direction_index, orthonormal, signed_unit, Cubit};
use crate::matrix::{bounded, mul_vec, Vec3};
use crate::movement::{
    canonical_axis, inverse, is_negative, rotation_table, Axis, AxisInner, LayerInner, Move, MoveType,
};
use crate::shell::{cube_wf, extremal, lemma_sides_small, offset, on_lattice, on_shell, step};

verus! {

/// The layer selector fits a cube with `s` sides.
pub open spec fn layer_valid(s: int, l: LayerInner) -> bool {
    match l {
        LayerInner::Single(k) => k < s,
        LayerInner::Multiple(n) => n <= s,
        LayerInner::WholeCube => true,
    }
}

/// Inclusive bounds of a whole axis.
pub open spec fn full_span(s: int) -> (int, int) {
    (-offset(s), offset(s))
}

/// The coordinate `k` layers in from the positive face.
pub open spec fn pos_layer_span(s: int, k: int) -> (int, int) {
    (offset(s) - k * step(s), offset(s) - k * step(s))
}

/// The coordinate `k` layers in from the negative face.
pub open spec fn neg_layer_span(s: int, k: int) -> (int, int) {
    (-offset(s) + k * step(s), -offset(s) + k * step(s))
}

/// The outermost `n` layers on the positive side.
pub open spec fn pos_range_span(s: int, n: int) -> (int, int) {
    (offset(s) - (n - 1) * step(s), offset(s))
}

/// The outermost `n` layers on the negative side.
pub open spec fn neg_range_span(s: int, n: int) -> (int, int) {
    (-offset(s), -offset(s) + (n - 1) * step(s))
}

/// Bounds, along the axis of the face `a`, of the layers that `l` selects,
/// counted inward from that face.
pub open spec fn layer_span(s: int, a: AxisInner, l: LayerInner) -> (int, int) {
    match l {
        LayerInner::Single(k) => if is_negative(a) {
            neg_layer_span(s, k as int)
        } else {
            pos_layer_span(s, k as int)
        },
        LayerInner::Multiple(n) => if is_negative(a) {
            neg_range_span(s, n as int)
        } else {
            pos_range_span(s, n as int)
        },
        LayerInner::WholeCube => full_span(s),
    }
}

/// Bounds along `axis` of the region a move acts on: the selected layers
/// on the move's own axis, everything on the other two.
pub open spec fn axis_span(s: int, mv: Move, axis: Axis) -> (int, int) {
    if canonical_axis(mv.axis) == axis {
        layer_span(s, mv.axis, mv.affected_range)
    } else {
        full_span(s)
    }
}

pub open spec fn in_span(r: (int, int), c: int) -> bool {
    r.0 <= c <= r.1
}

pub open spec fn span_of(r: (i64, i64)) -> (int, int) {
    (r.0 as int, r.1 as int)
}

/// The move acts on a piece at `p`.
pub open spec fn selects(s: int, mv: Move, p: Vec3) -> bool {
    &&& in_span(axis_span(s, mv, Axis::X), p.x as int)
    &&& in_span(axis_span(s, mv, Axis::Y), p.y as int)
    &&& in_span(axis_span(s, mv, Axis::Z), p.z as int)
}

/// The piece after the move: turned if selected, untouched otherwise.
pub open spec fn moved(s: int, mv: Move, c: Cubit) -> Cubit {
    if selects(s, mv, c.position) {
        c.rotated_by(mv.spec_rotation_matrix())
    } else {
        c
    }
}

/// The pieces after the move, each in its place in the sequence.
pub open spec fn apply_move(s: int, cubits: Seq<Cubit>, mv: Move) -> Seq<Cubit> {
    cubits.map_values(|c: Cubit| moved(s, mv, c))
}

/// The coordinate of `p` along the canonical axis `a`.
pub open spec fn component(a: Axis, p: Vec3) -> int {
    match a {
        Axis::X => p.x as int,
        Axis::Y => p.y as int,
        Axis::Z => p.z as int,
    }
}

/// The same move with its turn reversed.
pub open spec fn reversed(mv: Move) -> Move {
    Move { move_type: inverse(mv.move_type), axis: mv.axis, affected_range: mv.affected_range }
}

/// The same move with another turn.
pub open spec fn with_turn(mv: Move, t: MoveType) -> Move {
    Move { move_type: t, axis: mv.axis, affected_range: mv.affected_range }
}

/// The face on the other side of the cube.
pub open spec fn opposite_face(a: AxisInner) -> AxisInner {
    match a {
        AxisInner::X => AxisInner::NegX,
        AxisInner::NegX => AxisInner::X,
        AxisInner::Y => AxisInner::NegY,
        AxisInner::NegY => AxisInner::Y,
        AxisInner::Z => AxisInner::NegZ,
        AxisInner::NegZ => AxisInner::Z,
    }
}

/// A piece on the shell with a valid orientation has small components.
pub(crate) proof fn lemma_cubit_bounded(s: int, c: Cubit)
    requires
        2 <= s <= 0x40_0000,
        on_shell(s, c.position),
        orthonormal(c),
    ensures
        c.is_bounded(),
{
}

/// Each table rotation keeps a piece on the shell with a valid orientation,
/// and leaves its coordinate along the rotation axis unchanged.
pub(crate) proof fn lemma_table_rigid(s: int, a: Axis, t: MoveType, c: Cubit)
    requires
        2 <= s <= 0x40_0000,
        on_shell(s, c.position),
        orthonormal(c),
    ensures
        on_shell(s, c.rotated_by(rotation_table(a, t)).position),
        orthonormal(c.rotated_by(rotation_table(a, t))),
        component(a, c.rotated_by(rotation_table(a, t)).position) == component(a, c.position),
{
    let m = rotation_table(a, t);
    lemma_lattice_neg(s, c.position.x as int);
    lemma_lattice_neg(s, c.position.y as int);
    lemma_lattice_neg(s, c.position.z as int);
    lemma_table_vec(a, t, c.position);
    lemma_unit_turn(a, t, c.x_axis);
    lemma_unit_turn(a, t, c.y_axis);
    lemma_unit_turn(a, t, c.z_axis);
    assert(on_shell(s, c.rotated_by(m).position));
}

/// Where a table rotation sends the direction with index `i`.
pub(crate) open spec fn turned_index(a: Axis, i: int) -> int {
    match a {
        Axis::X => if i == 1 {
            2
        } else if i == 2 {
            1
        } else {
            i
        },
        Axis::Y => if i == 0 {
            2
        } else if i == 2 {
            0
        } else {
            i
        },
        Axis::Z => if i == 0 {
            1
        } else if i == 1 {
            0
        } else {
            i
        },
    }
}

/// A table rotation sends a signed unit vector to a signed unit vector,
/// permuting the directions.
pub(crate) proof fn lemma_unit_turn(a: Axis, t: MoveType, v: Vec3)
    requires
        signed_unit(v),
    ensures
        signed_unit(mul_vec(rotation_table(a, t), v)),
        direction_index(mul_vec(rotation_table(a, t), v)) == if t == MoveType::Twice {
            direction_index(v)
        } else {
            turned_index(a, direction_index(v))
        },
{
    lemma_table_vec(a, t, v);
}

/// Each table rotation is a signed permutation of the coordinates.
pub(crate) proof fn lemma_table_vec(a: Axis, t: MoveType, v: Vec3)
    requires
        bounded(v),
    ensures
        turned(a, t, v) == (
            mul_vec(rotation_table(a, t), v).x as int,
            mul_vec(rotation_table(a, t), v).y as int,
            mul_vec(rotation_table(a, t), v).z as int,
        ),
{
    reveal_with_fuel(turned, 1);
}

/// The coordinates of `v` after a table rotation, written out.
pub(crate) open spec fn turned(a: Axis, t: MoveType, v: Vec3) -> (int, int, int) {
    let (x, y, z) = (v.x as int, v.y as int, v.z as int);
    match (a, t) {
        (Axis::X, MoveType::Clockwise) => (x, z, -y),
        (Axis::X, MoveType::CounterClockwise) => (x, -z, y),
        (Axis::X, MoveType::Twice) => (x, -y, -z),
        (Axis::Y, MoveType::Clockwise) => (-z, y, x),
        (Axis::Y, MoveType::CounterClockwise) => (z, y, -x),
        (Axis::Y, MoveType::Twice) => (-x, y, -z),
        (Axis::Z, MoveType::Clockwise) => (y, -x, z),
        (Axis::Z, MoveType::CounterClockwise) => (-y, x, z),
        (Axis::Z, MoveType::Twice) => (-x, -y, z),
    }
}

pub(crate) proof fn lemma_lattice_neg(s: int, c: int)
    requires
        on_lattice(s, c),
    ensures
        on_lattice(s, -c),
        extremal(s, c) ==> extremal(s, -c),
{
}

pub(crate) proof fn lemma_moved_wf(s: int, mv: Move, c: Cubit)
    requires
        2 <= s <= 0x40_0000,
        on_shell(s, c.position),
        orthonormal(c),
    ensures
        on_shell(s, moved(s, mv, c).position),
        orthonormal(moved(s, mv, c)),
{
    lemma_table_rigid(s, mv.normalized().0, mv.normalized().1, c);
}

/// A move keeps a well-formed cube well-formed.
pub(crate) proof fn lemma_apply_move_wf(s: int, cubits: Seq<Cubit>, mv: Move)
    requires
        cube_wf(s, cubits),
    ensures
        cube_wf(s, apply_move(s, cubits, mv)),
{
    lemma_sides_small(s);
    let r = apply_move(s, cubits, mv);
    assert forall|i: int| 0 <= i < r.len() implies on_shell(s, #[trigger] r[i].position)
        && orthonormal(r[i]) by {
        assert(on_shell(s, cubits[i].position));
        lemma_moved_wf(s, mv, cubits[i]);
    }
}

/// Turning a piece leaves its selection by a move on the same layers unchanged.
pub(crate) proof fn lemma_moved_keeps_selection(s: int, mv: Move, t: MoveType, c: Cubit)
    requires
        2 <= s <= 0x40_0000,
        on_shell(s, c.position),
        orthonormal(c),
    ensures
        selects(s, with_turn(mv, t), moved(s, mv, c).position) == selects(
            s,
            with_turn(mv, t),
            c.position,
        ),
        on_shell(s, moved(s, mv, c).position),
        orthonormal(moved(s, mv, c)),
{
    let (a, u) = mv.normalized();
    lemma_table_rigid(s, a, u, c);
    assert(canonical_axis(mv.axis) == a);
}

/// Rotating by the table entry for a turn and then for its inverse is the identity.
pub(crate) proof fn lemma_table_inverse(a: Axis, t: MoveType, c: Cubit)
    requires
        c.is_bounded(),
    ensures
        c.rotated_by(rotation_table(a, t)).rotated_by(rotation_table(a, inverse(t))) == c,
{
    let m = rotation_table(a, t);
    let r = c.rotated_by(m);
    lemma_table_vec(a, t, c.position);
    lemma_table_vec(a, t, c.x_axis);
    lemma_table_vec(a, t, c.y_axis);
    lemma_table_vec(a, t, c.z_axis);
    lemma_table_vec(a, inverse(t), r.position);
    lemma_table_vec(a, inverse(t), r.x_axis);
    lemma_table_vec(a, inverse(t), r.y_axis);
    lemma_table_vec(a, inverse(t), r.z_axis);
}

/// Rotating four times by the same table entry is the identity.
pub(crate) proof fn lemma_table_period(a: Axis, t: MoveType, c: Cubit)
    requires
        c.is_bounded(),
    ensures
        c.rotated_by(rotation_table(a, t)).rotated_by(rotation_table(a, t)).rotated_by(
            rotation_table(a, t),
        ).rotated_by(rotation_table(a, t)) == c,
{
    lemma_vec_period(a, t, c.position);
    lemma_vec_period(a, t, c.x_axis);
    lemma_vec_period(a, t, c.y_axis);
    lemma_vec_period(a, t, c.z_axis);
}

pub(crate) proof fn lemma_vec_period(a: Axis, t: MoveType, v: Vec3)
    requires
        bounded(v),
    ensures
        mul_vec(
            rotation_table(a, t),
            mul_vec(rotation_table(a, t), mul_vec(rotation_table(a, t), mul_vec(rotation_table(a, t), v))),
        ) == v,
{
    let m = rotation_table(a, t);
    let v1 = mul_vec(m, v);
    lemma_table_vec(a, t, v);
    let v2 = mul_vec(m, v1);
    lemma_table_vec(a, t, v1);
    let v3 = mul_vec(m, v2);
    lemma_table_vec(a, t, v2);
    lemma_table_vec(a, t, v3);
}

} // verus!
