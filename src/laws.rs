//! Properties that hold across several operations on a cube.
use vstd::prelude::*;

use crate::cube::Cube;
use crate::movement::{inverse, LayerInner, Move, MoveType};
use crate::selection::{
    apply_move, lemma_cubit_bounded, lemma_moved_keeps_selection, lemma_table_inverse,
    lemma_table_period, opposite_face, reversed, selects, with_turn,
};
use crate::cubit::std_cubit;
use crate::matrix::Vec3;
use crate::shell::{
    laid_out_before, lemma_prefix_sorted, lemma_shell_complete, lemma_sides_small, offset, on_shell,
    step,
};

verus! {

/// Applying a move and then the same move with its turn reversed
/// (clockwise and counter-clockwise swapped, a half turn kept) leaves every
/// piece of the cube where and as it was.
pub proof fn lemma_round_trip(c: Cube, mv: Move)
    requires
        c.wf(),
    ensures
        apply_move(c.spec_sides(), apply_move(c.spec_sides(), c@, mv), reversed(mv)) == c@,
{
    let s = c.spec_sides();
    lemma_sides_small(s);
    let once = apply_move(s, c@, mv);
    let back = apply_move(s, once, reversed(mv));
    assert forall|i: int| 0 <= i < c@.len() implies back[i] == c@[i] by {
        let p = c@[i];
        assert(on_shell(s, p.position));
        lemma_moved_keeps_selection(s, mv, inverse(mv.move_type), p);
        assert(with_turn(mv, inverse(mv.move_type)) == reversed(mv));
        assert(with_turn(mv, mv.move_type) == mv);
        lemma_moved_keeps_selection(s, mv, mv.move_type, p);
        if selects(s, mv, p.position) {
            lemma_cubit_bounded(s, p);
            let (a, u) = mv.normalized();
            assert(reversed(mv).normalized() == (a, inverse(u)));
            lemma_table_inverse(a, u, p);
        }
    }
    assert(back =~= c@);
}

/// Applying the same move four times in a row leaves the cube as it was.
pub proof fn lemma_four_turns(c: Cube, mv: Move)
    requires
        c.wf(),
    ensures
        apply_move(
            c.spec_sides(),
            apply_move(
                c.spec_sides(),
                apply_move(c.spec_sides(), apply_move(c.spec_sides(), c@, mv), mv),
                mv,
            ),
            mv,
        ) == c@,
{
    let s = c.spec_sides();
    lemma_sides_small(s);
    let c1 = apply_move(s, c@, mv);
    let c2 = apply_move(s, c1, mv);
    let c3 = apply_move(s, c2, mv);
    let c4 = apply_move(s, c3, mv);
    assert(with_turn(mv, mv.move_type) == mv);
    assert forall|i: int| 0 <= i < c@.len() implies c4[i] == c@[i] by {
        let piece0 = c@[i];
        assert(on_shell(s, piece0.position));
        lemma_moved_keeps_selection(s, mv, mv.move_type, piece0);
        let piece1 = c1[i];
        lemma_moved_keeps_selection(s, mv, mv.move_type, piece1);
        let piece2 = c2[i];
        lemma_moved_keeps_selection(s, mv, mv.move_type, piece2);
        let piece3 = c3[i];
        lemma_moved_keeps_selection(s, mv, mv.move_type, piece3);
        if selects(s, mv, piece0.position) {
            lemma_cubit_bounded(s, piece0);
            let (a, u) = mv.normalized();
            lemma_table_period(a, u, piece0);
        }
    }
    assert(c4 =~= c@);
}

/// A half turn applied twice in a row leaves the cube as it was.
pub proof fn lemma_two_half_turns(c: Cube, mv: Move)
    requires
        c.wf(),
        mv.move_type == MoveType::Twice,
    ensures
        apply_move(c.spec_sides(), apply_move(c.spec_sides(), c@, mv), mv) == c@,
{
    assert(reversed(mv) == mv);
    lemma_round_trip(c, mv);
}

/// Turning the layer `k` deep from one face is the same motion, piece by
/// piece, as turning the layer `sides − 1 − k` deep from the opposite face
/// in the other direction.
pub proof fn lemma_opposite_face(c: Cube, mv: Move, k: usize)
    requires
        c.wf(),
        mv.affected_range == LayerInner::Single(k),
        k < c.spec_sides(),
    ensures
        apply_move(c.spec_sides(), c@, mv) == apply_move(
            c.spec_sides(),
            c@,
            Move {
                move_type: inverse(mv.move_type),
                axis: opposite_face(mv.axis),
                affected_range: LayerInner::Single((c.spec_sides() - 1 - k) as usize),
            },
        ),
{
    let s = c.spec_sides();
    lemma_sides_small(s);
    let mirror = Move {
        move_type: inverse(mv.move_type),
        axis: opposite_face(mv.axis),
        affected_range: LayerInner::Single((s - 1 - k) as usize),
    };
    assert(mirror.spec_rotation_matrix() == mv.spec_rotation_matrix());
    assert(offset(s) - (s - 1 - k) * step(s) == -offset(s) + k * step(s)) by (nonlinear_arith)
        requires
            step(s) == 2 ==> offset(s) == s - 1,
            step(s) == 1 ==> 2 * offset(s) == s - 1,
            step(s) == 1 || step(s) == 2,
    ;
    assert(-offset(s) + (s - 1 - k) * step(s) == offset(s) - k * step(s)) by (nonlinear_arith)
        requires
            step(s) == 2 ==> offset(s) == s - 1,
            step(s) == 1 ==> 2 * offset(s) == s - 1,
            step(s) == 1 || step(s) == 2,
    ;
    let l = apply_move(s, c@, mv);
    let r = apply_move(s, c@, mirror);
    assert forall|i: int| 0 <= i < c@.len() implies l[i] == r[i] by {
        assert(selects(s, mv, c@[i].position) == selects(s, mirror, c@[i].position));
    }
    assert(l =~= r);
}

/// Two cubes built with the same side count hold the same pieces, in the
/// same places and orientations, in the same order.
pub proof fn lemma_construction_reproducible(s: int, a: Cube, b: Cube)
    requires
        a.built_from(s),
        b.built_from(s),
    ensures
        a@ == b@,
        a.spec_sides() == b.spec_sides(),
{
}

/// A new cube lists its pieces in strictly increasing `z`, `x`, `y` order,
/// so no two of them share a position.
pub proof fn lemma_construction_distinct(c: Cube, s: int)
    requires
        c.built_from(s),
    ensures
        forall|i: int, j: int|
            0 <= i < j < c@.len() ==> laid_out_before(
                #[trigger] c@[i].position,
                #[trigger] c@[j].position,
            ),
        forall|i: int, j: int|
            0 <= i < c@.len() && 0 <= j < c@.len() && i != j ==> c@[i].position != c@[j].position,
{
    lemma_sides_small(s);
    lemma_prefix_sorted(s, s);
    assert forall|i: int, j: int|
        0 <= i < c@.len() && 0 <= j < c@.len() && i != j implies c@[i].position
        != c@[j].position by {
        if i < j {
            assert(laid_out_before(c@[i].position, c@[j].position));
        } else {
            assert(laid_out_before(c@[j].position, c@[i].position));
        }
    }
}


/// Every point of the shell holds a piece of a new cube, in standard
/// orientation.
pub proof fn lemma_construction_complete(c: Cube, s: int, p: Vec3)
    requires
        c.built_from(s),
        on_shell(s, p),
    ensures
        c@.contains(std_cubit(p)),
{
    lemma_sides_small(s);
    lemma_shell_complete(s, p);
}

} // verus!
