//! The coordinate lattice of a cube and the shell pieces a new cube holds.
use vstd::prelude::*;

use crate::cubit::{orthonormal, std_cubit, Cubit};
use crate::matrix::Vec3;

verus! {

/// Magnitude of the outermost coordinate on an axis of a cube with `s` sides.
pub open spec fn offset(s: int) -> int {
    if s % 2 == 0 {
        s - 1
    } else {
        s / 2
    }
}

/// Distance between neighbouring coordinates on an axis.
pub open spec fn step(s: int) -> int {
    if s % 2 == 0 {
        2
    } else {
        1
    }
}

/// The `k`-th coordinate on an axis, counting from the negative end.
pub open spec fn coord(s: int, k: int) -> int {
    k * step(s) - offset(s)
}

/// `c` is one of the coordinates of an axis: an integer in
/// `[-offset, offset]`, and odd when the side count is even.
pub open spec fn on_lattice(s: int, c: int) -> bool {
    &&& -offset(s) <= c <= offset(s)
    &&& s % 2 == 0 ==> c % 2 != 0
}

/// `c` is an outermost coordinate.
pub open spec fn extremal(s: int, c: int) -> bool {
    c == offset(s) || c == -offset(s)
}

/// `p` is a lattice point with at least one outermost coordinate.
pub open spec fn on_shell(s: int, p: Vec3) -> bool {
    &&& on_lattice(s, p.x as int)
    &&& on_lattice(s, p.y as int)
    &&& on_lattice(s, p.z as int)
    &&& extremal(s, p.x as int) || extremal(s, p.y as int) || extremal(s, p.z as int)
}

/// `k` indexes an outermost coordinate.
pub open spec fn extreme_index(s: int, k: int) -> bool {
    k == 0 || k == s - 1
}

/// The lattice point with per-axis indices `z`, `x` and `y`.
pub open spec fn grid_point(s: int, z: int, x: int, y: int) -> Vec3 {
    Vec3 { x: coord(s, x) as i64, y: coord(s, y) as i64, z: coord(s, z) as i64 }
}

/// The grid point with these indices is on the shell.
pub open spec fn kept(s: int, z: int, x: int, y: int) -> bool {
    extreme_index(s, z) || extreme_index(s, x) || extreme_index(s, y)
}

/// Shell pieces, in standard orientation, with indices `z` and `x` and a
/// `y` index below `n`, in increasing `y`.
pub open spec fn shell_row(s: int, z: int, x: int, n: int) -> Seq<Cubit>
    decreases n,
{
    if n <= 0 {
        seq![]
    } else if kept(s, z, x, n - 1) {
        shell_row(s, z, x, n - 1).push(std_cubit(grid_point(s, z, x, n - 1)))
    } else {
        shell_row(s, z, x, n - 1)
    }
}

/// Shell pieces with index `z` and an `x` index below `n`, row by row.
pub open spec fn shell_slab(s: int, z: int, n: int) -> Seq<Cubit>
    decreases n,
{
    if n <= 0 {
        seq![]
    } else {
        shell_slab(s, z, n - 1) + shell_row(s, z, n - 1, s)
    }
}

/// Shell pieces with a `z` index below `n`, slab by slab.
pub open spec fn shell_prefix(s: int, n: int) -> Seq<Cubit>
    decreases n,
{
    if n <= 0 {
        seq![]
    } else {
        shell_prefix(s, n - 1) + shell_slab(s, n - 1, s)
    }
}

/// Every shell piece of a cube with `s` sides, in standard orientation,
/// ordered by `z` index, then `x` index, then `y` index.
pub open spec fn shell_cubits(s: int) -> Seq<Cubit> {
    shell_prefix(s, s)
}

/// `s³` fits in a `usize`.
pub open spec fn sides_fit(s: int) -> bool {
    0 <= s && s * s * s <= usize::MAX
}

/// A cube with `s` sides whose pieces sit on the shell with a valid orientation.
pub open spec fn cube_wf(s: int, cubits: Seq<Cubit>) -> bool {
    &&& 2 <= s
    &&& sides_fit(s)
    &&& forall|i: int|
        0 <= i < cubits.len() ==> on_shell(s, #[trigger] cubits[i].position) && orthonormal(
            cubits[i],
        )
}

/// A side count whose cube fits in a `usize` is small.
pub(crate) proof fn lemma_sides_small(s: int)
    requires
        sides_fit(s),
    ensures
        s <= 0x40_0000,
{
    if s > 0x40_0000 {
        assert(s * s > 0x40_0000 * 0x40_0000) by (nonlinear_arith)
            requires
                s > 0x40_0000,
        ;
        assert(s * s * s > 0x40_0000 * 0x40_0000 * 0x40_0000) by (nonlinear_arith)
            requires
                s > 0x40_0000,
                s * s > 0x40_0000 * 0x40_0000,
        ;
    }
}

/// The products computed while sizing a cube do not exceed `s³`.
pub(crate) proof fn lemma_cube_bounds(s: int)
    requires
        2 <= s,
        sides_fit(s),
    ensures
        s * s <= s * s * s,
        (s - 2) * (s - 2) <= s * s * s,
        (s - 2) * (s - 2) * (s - 2) <= s * s * s,
        0 <= (s - 2) * (s - 2) * (s - 2),
{
    assert(s * s <= s * s * s) by (nonlinear_arith)
        requires
            2 <= s,
    ;
    assert((s - 2) * (s - 2) <= s * s * s) by (nonlinear_arith)
        requires
            2 <= s,
    ;
    assert((s - 2) * (s - 2) * (s - 2) <= s * s * s && 0 <= (s - 2) * (s - 2) * (s - 2))
        by (nonlinear_arith)
        requires
            2 <= s,
    ;
}

pub(crate) proof fn lemma_coord_on_lattice(s: int, k: int)
    requires
        2 <= s,
        0 <= k < s,
    ensures
        on_lattice(s, coord(s, k)),
        k == 0 ==> coord(s, k) == -offset(s),
        k == s - 1 ==> coord(s, k) == offset(s),
{
}

pub(crate) proof fn lemma_grid_point_on_shell(s: int, z: int, x: int, y: int)
    requires
        2 <= s <= 0x40_0000,
        0 <= z < s,
        0 <= x < s,
        0 <= y < s,
        kept(s, z, x, y),
    ensures
        on_shell(s, grid_point(s, z, x, y)),
        orthonormal(std_cubit(grid_point(s, z, x, y))),
{
    lemma_coord_on_lattice(s, x);
    lemma_coord_on_lattice(s, y);
    lemma_coord_on_lattice(s, z);
}

pub(crate) proof fn lemma_row_len(s: int, z: int, x: int, n: int)
    requires
        2 <= s,
        0 <= n <= s,
    ensures
        shell_row(s, z, x, n).len() == if extreme_index(s, z) || extreme_index(s, x) {
            n
        } else {
            (if n >= 1 {
                1int
            } else {
                0int
            }) + (if n >= s {
                1int
            } else {
                0int
            })
        },
    decreases n,
{
    if n > 0 {
        lemma_row_len(s, z, x, n - 1);
    }
}

pub(crate) proof fn lemma_slab_len(s: int, z: int, n: int)
    requires
        2 <= s,
        0 <= n <= s,
    ensures
        shell_slab(s, z, n).len() == if extreme_index(s, z) {
            n * s
        } else if n == 0 {
            0
        } else if n < s {
            s + 2 * (n - 1)
        } else {
            4 * s - 4
        },
    decreases n,
{
    if n > 0 {
        lemma_slab_len(s, z, n - 1);
        lemma_row_len(s, z, n - 1, s);
        assert((n - 1) * s + s == n * s) by (nonlinear_arith);
    }
}

pub(crate) proof fn lemma_prefix_len(s: int, n: int)
    requires
        2 <= s,
        0 <= n <= s,
    ensures
        shell_prefix(s, n).len() == if n == 0 {
            0
        } else if n < s {
            s * s + (n - 1) * (4 * s - 4)
        } else {
            2 * s * s + (s - 2) * (4 * s - 4)
        },
    decreases n,
{
    if n > 0 {
        lemma_prefix_len(s, n - 1);
        lemma_slab_len(s, n - 1, s);
        assert((n - 2) * (4 * s - 4) + (4 * s - 4) == (n - 1) * (4 * s - 4)) by (nonlinear_arith);
        assert(s * s + (s - 2) * (4 * s - 4) + s * s == 2 * s * s + (s - 2) * (4 * s - 4))
            by (nonlinear_arith);
    }
}

/// A cube with `s` sides has `s³ − (s−2)³` shell pieces.
pub(crate) proof fn lemma_shell_len(s: int)
    requires
        2 <= s,
    ensures
        shell_cubits(s).len() == s * s * s - (s - 2) * (s - 2) * (s - 2),
{
    lemma_prefix_len(s, s);
    assert(2 * s * s + (s - 2) * (4 * s - 4) == s * s * s - (s - 2) * (s - 2) * (s - 2))
        by (nonlinear_arith);
}

/// `p` comes strictly before `q` in the order a new cube lays its pieces
/// out: by `z`, then by `x`, then by `y`.
pub open spec fn laid_out_before(p: Vec3, q: Vec3) -> bool {
    ||| p.z < q.z
    ||| p.z == q.z && p.x < q.x
    ||| p.z == q.z && p.x == q.x && p.y < q.y
}

pub(crate) proof fn lemma_coord_increasing(s: int, a: int, b: int)
    requires
        2 <= s <= 0x40_0000,
        0 <= a < b <= s,
    ensures
        coord(s, a) < coord(s, b),
        -offset(s) <= coord(s, a) <= offset(s) || a == s,
        -offset(s) <= coord(s, b) <= offset(s) || b == s,
{
    assert(a * step(s) < b * step(s)) by (nonlinear_arith)
        requires
            a < b,
            step(s) >= 1,
    ;
    if b < s {
        lemma_coord_on_lattice(s, b);
    }
    lemma_coord_on_lattice(s, a);
}

pub(crate) proof fn lemma_row_sorted(s: int, z: int, x: int, n: int)
    requires
        2 <= s <= 0x40_0000,
        0 <= z < s,
        0 <= x < s,
        0 <= n <= s,
    ensures
        forall|i: int|
            0 <= i < shell_row(s, z, x, n).len() ==> {
                let p = #[trigger] shell_row(s, z, x, n)[i].position;
                &&& p.z == coord(s, z)
                &&& p.x == coord(s, x)
                &&& p.y < coord(s, n)
            },
        forall|i: int, j: int|
            0 <= i < j < shell_row(s, z, x, n).len() ==> laid_out_before(
                #[trigger] shell_row(s, z, x, n)[i].position,
                #[trigger] shell_row(s, z, x, n)[j].position,
            ),
    decreases n,
{
    if n > 0 {
        lemma_row_sorted(s, z, x, n - 1);
        lemma_coord_on_lattice(s, z);
        lemma_coord_on_lattice(s, x);
        lemma_coord_on_lattice(s, n - 1);
        lemma_coord_increasing(s, n - 1, n);
        let prev = shell_row(s, z, x, n - 1);
        let r = shell_row(s, z, x, n);
        assert forall|i: int| 0 <= i < prev.len() implies (#[trigger] prev[i].position).y < coord(
            s,
            n - 1,
        ) by {
            assert(prev[i].position.y < coord(s, n - 1));
        }
        assert forall|i: int, j: int| 0 <= i < j < r.len() implies laid_out_before(
            #[trigger] r[i].position,
            #[trigger] r[j].position,
        ) by {
            if j < prev.len() {
                assert(r[i] == prev[i] && r[j] == prev[j]);
            } else {
                assert(r[i] == prev[i]);
            }
        }
    }
}

pub(crate) proof fn lemma_slab_sorted(s: int, z: int, n: int)
    requires
        2 <= s <= 0x40_0000,
        0 <= z < s,
        0 <= n <= s,
    ensures
        forall|i: int|
            0 <= i < shell_slab(s, z, n).len() ==> {
                let p = #[trigger] shell_slab(s, z, n)[i].position;
                &&& p.z == coord(s, z)
                &&& p.x < coord(s, n)
            },
        forall|i: int, j: int|
            0 <= i < j < shell_slab(s, z, n).len() ==> laid_out_before(
                #[trigger] shell_slab(s, z, n)[i].position,
                #[trigger] shell_slab(s, z, n)[j].position,
            ),
    decreases n,
{
    if n > 0 {
        lemma_slab_sorted(s, z, n - 1);
        lemma_row_sorted(s, z, n - 1, s);
        lemma_coord_increasing(s, n - 1, n);
        let a = shell_slab(s, z, n - 1);
        let b = shell_row(s, z, n - 1, s);
        let r = shell_slab(s, z, n);
        assert(r == a + b);
        assert forall|i: int| 0 <= i < r.len() implies {
            let p = #[trigger] r[i].position;
            &&& p.z == coord(s, z)
            &&& p.x < coord(s, n)
        } by {
            if i < a.len() {
                assert(r[i] == a[i]);
            } else {
                assert(r[i] == b[i - a.len()]);
            }
        }
        assert forall|i: int, j: int| 0 <= i < j < r.len() implies laid_out_before(
            #[trigger] r[i].position,
            #[trigger] r[j].position,
        ) by {
            if j < a.len() {
                assert(r[i] == a[i] && r[j] == a[j]);
            } else if i < a.len() {
                assert(r[i] == a[i] && r[j] == b[j - a.len()]);
            } else {
                assert(r[i] == b[i - a.len()] && r[j] == b[j - a.len()]);
            }
        }
    }
}

pub(crate) proof fn lemma_prefix_sorted(s: int, n: int)
    requires
        2 <= s <= 0x40_0000,
        0 <= n <= s,
    ensures
        forall|i: int|
            0 <= i < shell_prefix(s, n).len() ==> (#[trigger] shell_prefix(s, n)[i].position).z
                < coord(s, n),
        forall|i: int, j: int|
            0 <= i < j < shell_prefix(s, n).len() ==> laid_out_before(
                #[trigger] shell_prefix(s, n)[i].position,
                #[trigger] shell_prefix(s, n)[j].position,
            ),
    decreases n,
{
    if n > 0 {
        lemma_prefix_sorted(s, n - 1);
        lemma_slab_sorted(s, n - 1, s);
        lemma_coord_increasing(s, n - 1, n);
        let a = shell_prefix(s, n - 1);
        let b = shell_slab(s, n - 1, s);
        let r = shell_prefix(s, n);
        assert(r == a + b);
        assert forall|i: int| 0 <= i < r.len() implies (#[trigger] r[i].position).z < coord(
            s,
            n,
        ) by {
            if i < a.len() {
                assert(r[i] == a[i]);
            } else {
                assert(r[i] == b[i - a.len()]);
            }
        }
        assert forall|i: int, j: int| 0 <= i < j < r.len() implies laid_out_before(
            #[trigger] r[i].position,
            #[trigger] r[j].position,
        ) by {
            if j < a.len() {
                assert(r[i] == a[i] && r[j] == a[j]);
            } else if i < a.len() {
                assert(r[i] == a[i] && r[j] == b[j - a.len()]);
            } else {
                assert(r[i] == b[i - a.len()] && r[j] == b[j - a.len()]);
            }
        }
    }
}

pub(crate) proof fn lemma_row_contains(s: int, z: int, x: int, n: int, y: int)
    requires
        0 <= y < n,
        kept(s, z, x, y),
    ensures
        shell_row(s, z, x, n).contains(std_cubit(grid_point(s, z, x, y))),
    decreases n,
{
    let r = shell_row(s, z, x, n);
    if y == n - 1 {
        assert(r[r.len() - 1] == std_cubit(grid_point(s, z, x, y)));
    } else {
        lemma_row_contains(s, z, x, n - 1, y);
        let prev = shell_row(s, z, x, n - 1);
        let i = choose|i: int| 0 <= i < prev.len() && prev[i] == std_cubit(grid_point(s, z, x, y));
        assert(r[i] == prev[i]);
    }
}

pub(crate) proof fn lemma_slab_contains(s: int, z: int, n: int, x: int, y: int)
    requires
        0 <= x < n,
        0 <= y < s,
        kept(s, z, x, y),
    ensures
        shell_slab(s, z, n).contains(std_cubit(grid_point(s, z, x, y))),
    decreases n,
{
    let a = shell_slab(s, z, n - 1);
    let b = shell_row(s, z, n - 1, s);
    let target = std_cubit(grid_point(s, z, x, y));
    assert(shell_slab(s, z, n) == a + b);
    if x == n - 1 {
        lemma_row_contains(s, z, x, s, y);
        let i = choose|i: int| 0 <= i < b.len() && b[i] == target;
        assert((a + b)[a.len() + i] == target);
    } else {
        lemma_slab_contains(s, z, n - 1, x, y);
        let i = choose|i: int| 0 <= i < a.len() && a[i] == target;
        assert((a + b)[i] == target);
    }
}

pub(crate) proof fn lemma_prefix_contains(s: int, n: int, z: int, x: int, y: int)
    requires
        0 <= z < n,
        0 <= x < s,
        0 <= y < s,
        kept(s, z, x, y),
    ensures
        shell_prefix(s, n).contains(std_cubit(grid_point(s, z, x, y))),
    decreases n,
{
    let a = shell_prefix(s, n - 1);
    let b = shell_slab(s, n - 1, s);
    let target = std_cubit(grid_point(s, z, x, y));
    assert(shell_prefix(s, n) == a + b);
    if z == n - 1 {
        lemma_slab_contains(s, z, s, x, y);
        let i = choose|i: int| 0 <= i < b.len() && b[i] == target;
        assert((a + b)[a.len() + i] == target);
    } else {
        lemma_prefix_contains(s, n - 1, z, x, y);
        let i = choose|i: int| 0 <= i < a.len() && a[i] == target;
        assert((a + b)[i] == target);
    }
}

/// The index of a lattice coordinate, counting from the negative end.
pub(crate) open spec fn index_of(s: int, c: int) -> int {
    (c + offset(s)) / step(s)
}

pub(crate) proof fn lemma_index_of(s: int, c: int)
    requires
        2 <= s <= 0x40_0000,
        on_lattice(s, c),
    ensures
        0 <= index_of(s, c) < s,
        coord(s, index_of(s, c)) == c,
        extremal(s, c) ==> extreme_index(s, index_of(s, c)),
{
    if s % 2 == 0 {
        assert((c + offset(s)) % 2 == 0);
    }
}

/// Every point of the shell holds a piece of a new cube.
pub(crate) proof fn lemma_shell_complete(s: int, p: Vec3)
    requires
        2 <= s <= 0x40_0000,
        on_shell(s, p),
    ensures
        shell_cubits(s).contains(std_cubit(p)),
{
    let kx = index_of(s, p.x as int);
    let ky = index_of(s, p.y as int);
    let kz = index_of(s, p.z as int);
    lemma_index_of(s, p.x as int);
    lemma_index_of(s, p.y as int);
    lemma_index_of(s, p.z as int);
    assert(grid_point(s, kz, kx, ky) == p);
    lemma_prefix_contains(s, s, kz, kx, ky);
}

} // verus!
