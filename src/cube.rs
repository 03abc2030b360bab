//! The puzzle cube: its construction and its moves.
use vstd::prelude::*;

use crate::cubit::{orthonormal, std_cubit, Cubit};
use crate::error::Error;
use crate::matrix::Vec3;
use crate::movement::{Axis, AxisInner, LayerInner, Move};
use crate::selection::{
    apply_move, axis_span, full_span, layer_valid, lemma_apply_move_wf, lemma_cubit_bounded, moved,
    neg_layer_span, neg_range_span, pos_layer_span, pos_range_span, span_of,
};
use crate::shell::{
    cube_wf, grid_point, lemma_cube_bounds, lemma_grid_point_on_shell, lemma_shell_len,
    lemma_sides_small, offset, on_shell, shell_cubits, shell_prefix, shell_row, shell_slab, sides_fit,
    step,
};

verus! {

/// Represents a full puzzle cube.
#[derive(Debug)]
pub struct Cube {
    sides: usize,
    cubits: Vec<Cubit>,
}

impl View for Cube {
    type V = Seq<Cubit>;

    closed spec fn view(&self) -> Seq<Cubit> {
        self.cubits@
    }
}

impl Cube {
    /// Number of pieces on an edge.
    pub closed spec fn spec_sides(&self) -> int {
        self.sides as int
    }

    /// At least two sides, and every piece on the shell with a valid orientation.
    pub open spec fn wf(&self) -> bool {
        cube_wf(self.spec_sides(), self@)
    }

    /// The cube is exactly what construction with `s` sides yields.
    pub open spec fn built_from(&self, s: int) -> bool {
        &&& self.wf()
        &&& self.spec_sides() == s
        &&& self@ == shell_cubits(s)
    }

    /// Create a puzzle cube where `sides` is the number of cubits on an edge.
    ///
    /// So `sides = 10` would create a 10×10×10 cube.
    pub fn with_number_sides(sides: usize) -> (r: Result<Cube, Error>)
        requires
            sides_fit(sides as int),
        ensures
            sides < 2 ==> r == Err::<Cube, Error>(Error::InvalidNumberSides(sides)),
            sides >= 2 ==> r is Ok && r->Ok_0.built_from(sides as int),
            sides >= 2 ==> r->Ok_0@.len() == sides * sides * sides - (sides - 2) * (sides - 2) * (
            sides - 2),
    {
        if sides < 2 {
            return Err(Error::InvalidNumberSides(sides));
        }
        let ghost s = sides as int;
        proof {
            lemma_sides_small(s);
            lemma_cube_bounds(s);
        }
        let full = sides * sides * sides;
        let size = full - (sides - 2) * (sides - 2) * (sides - 2);
        let mut cube = Cube { sides, cubits: Vec::new() };
        let mut cubits: Vec<Cubit> = Vec::with_capacity(size);
        let mut z: usize = 0;
        while z < sides
            invariant
                cube.sides == sides,
                2 <= s == sides <= 0x40_0000,
                z <= sides,
                cubits@ == shell_prefix(s, z as int),
                cube_wf(s, cubits@),
            decreases sides - z,
        {
            let mut x: usize = 0;
            while x < sides
                invariant
                    cube.sides == sides,
                    2 <= s == sides <= 0x40_0000,
                    z < sides,
                    x <= sides,
                    cubits@ == shell_prefix(s, z as int) + shell_slab(s, z as int, x as int),
                    cube_wf(s, cubits@),
                decreases sides - x,
            {
                let mut y: usize = 0;
                while y < sides
                    invariant
                        cube.sides == sides,
                        2 <= s == sides <= 0x40_0000,
                        z < sides,
                        x < sides,
                        y <= sides,
                        cubits@ == shell_prefix(s, z as int) + shell_slab(s, z as int, x as int)
                            + shell_row(s, z as int, x as int, y as int),
                        cube_wf(s, cubits@),
                    decreases sides - y,
                {
                    let ghost before = cubits@;
                    if z == 0 || z == sides - 1 || x == 0 || x == sides - 1 || y == 0 || y == sides
                        - 1 {
                        let p = cube.index_to_coords(z, x, y);
                        proof {
                            lemma_grid_point_on_shell(s, z as int, x as int, y as int);
                        }
                        cubits.push(Cubit::std_from_position(p));
                        proof {
                            assert(cubits@ =~= shell_prefix(s, z as int) + shell_slab(
                                s,
                                z as int,
                                x as int,
                            ) + shell_row(s, z as int, x as int, y + 1));
                            assert forall|i: int| 0 <= i < cubits@.len() implies on_shell(
                                s,
                                #[trigger] cubits@[i].position,
                            ) && orthonormal(cubits@[i]) by {
                                if i < before.len() {
                                    assert(cubits@[i] == before[i]);
                                    assert(on_shell(s, before[i].position));
                                } else {
                                    assert(cubits@[i] == std_cubit(p));
                                }
                            }
                        }
                    }
                    y += 1;
                }
                proof {
                    assert(shell_slab(s, z as int, x + 1) == shell_slab(s, z as int, x as int)
                        + shell_row(s, z as int, x as int, s));
                    assert(cubits@ =~= shell_prefix(s, z as int) + shell_slab(
                        s,
                        z as int,
                        x + 1,
                    ));
                }
                x += 1;
            }
            proof {
                assert(cubits@ =~= shell_prefix(s, z + 1));
            }
            z += 1;
        }
        proof {
            lemma_shell_len(s);
        }
        cube.cubits = cubits;
        Ok(cube)
    }

    /// Create a 2×2×2 cube.
    pub fn new2x2x2() -> (r: Cube)
        ensures
            r.built_from(2),
    {
        match Self::with_number_sides(2) {
            Ok(c) => c,
            Err(_) => {
                proof {
                    assert(false);
                }
                Cube { sides: 2, cubits: Vec::new() }
            },
        }
    }

    /// Create a 3×3×3 cube.
    pub fn new3x3x3() -> (r: Cube)
        ensures
            r.built_from(3),
    {
        match Self::with_number_sides(3) {
            Ok(c) => c,
            Err(_) => {
                proof {
                    assert(false);
                }
                Cube { sides: 3, cubits: Vec::new() }
            },
        }
    }

    /// Number of cubits on an edge.
    pub fn sides(&self) -> (r: usize)
        ensures
            r == self.spec_sides(),
    {
        self.sides
    }

    /// The pieces of the cube.
    pub fn cubits(&self) -> (r: &Vec<Cubit>)
        ensures
            r@ == self@,
    {
        &self.cubits
    }

    /// Rotate the cube or some of its layers as the move describes.
    ///
    /// Fails, leaving the cube as it was, when the layer selector does not
    /// fit the cube.
    pub fn rotate(&mut self, mv: &Move) -> (r: Result<(), Error>)
        requires
            old(self).wf(),
        ensures
            final(self).wf(),
            final(self).spec_sides() == old(self).spec_sides(),
            r is Ok <==> layer_valid(old(self).spec_sides(), mv.affected_range),
            r is Err ==> r == Err::<(), Error>(Error::InvalidMoveLayer) && final(self)@ == old(
                self,
            )@,
            r is Ok ==> final(self)@ == apply_move(old(self).spec_sides(), old(self)@, *mv),
    {
        match mv.affected_range {
            LayerInner::Single(l) => {
                if l >= self.sides {
                    return Err(Error::InvalidMoveLayer);
                }
            },
            LayerInner::Multiple(l) => {
                if l > self.sides {
                    return Err(Error::InvalidMoveLayer);
                }
            },
            LayerInner::WholeCube => {},
        }
        let ghost s = self.sides as int;
        proof {
            lemma_sides_small(s);
        }
        let (x_range, y_range, z_range) = match mv.affected_range {
            LayerInner::Single(l) => match mv.axis {
                AxisInner::X => (self.pos_layer(l), self.full_range(), self.full_range()),
                AxisInner::NegX => (self.neg_layer(l), self.full_range(), self.full_range()),
                AxisInner::Y => (self.full_range(), self.pos_layer(l), self.full_range()),
                AxisInner::NegY => (self.full_range(), self.neg_layer(l), self.full_range()),
                AxisInner::Z => (self.full_range(), self.full_range(), self.pos_layer(l)),
                AxisInner::NegZ => (self.full_range(), self.full_range(), self.neg_layer(l)),
            },
            LayerInner::Multiple(l) => match mv.axis {
                AxisInner::X => (self.pos_range(l), self.full_range(), self.full_range()),
                AxisInner::NegX => (self.neg_range(l), self.full_range(), self.full_range()),
                AxisInner::Y => (self.full_range(), self.pos_range(l), self.full_range()),
                AxisInner::NegY => (self.full_range(), self.neg_range(l), self.full_range()),
                AxisInner::Z => (self.full_range(), self.full_range(), self.pos_range(l)),
                AxisInner::NegZ => (self.full_range(), self.full_range(), self.neg_range(l)),
            },
            LayerInner::WholeCube => (self.full_range(), self.full_range(), self.full_range()),
        };
        let rot = mv.rotation_matrix();
        let ghost before = self.cubits@;
        let mut i: usize = 0;
        while i < self.cubits.len()
            invariant
                self.sides == s,
                2 <= s <= 0x40_0000,
                cube_wf(s, before),
                i <= self.cubits.len() == before.len(),
                rot == mv.spec_rotation_matrix(),
                rot.has_unit_entries(),
                span_of(x_range) == axis_span(s, *mv, Axis::X),
                span_of(y_range) == axis_span(s, *mv, Axis::Y),
                span_of(z_range) == axis_span(s, *mv, Axis::Z),
                forall|j: int| 0 <= j < i ==> self.cubits@[j] == moved(s, *mv, before[j]),
                forall|j: int| i <= j < before.len() ==> self.cubits@[j] == before[j],
            decreases before.len() - i,
        {
            let mut c = self.cubits[i];
            let pos = c.get_position();
            if x_range.0 <= pos.x && pos.x <= x_range.1 && y_range.0 <= pos.y && pos.y
                <= y_range.1 && z_range.0 <= pos.z && pos.z <= z_range.1 {
                proof {
                    assert(on_shell(s, before[i as int].position));
                    lemma_cubit_bounded(s, c);
                }
                c.rotate(&rot);
                self.cubits.set(i, c);
            }
            i += 1;
        }
        proof {
            assert(self.cubits@ =~= apply_move(s, before, *mv));
            lemma_apply_move_wf(s, before, *mv);
        }
        Ok(())
    }

    fn full_range(&self) -> (r: (i64, i64))
        requires
            2 <= self.sides <= 0x40_0000,
        ensures
            span_of(r) == full_span(self.sides as int),
    {
        let offset = self.offset() as i64;
        (-offset, offset)
    }

    fn neg_layer(&self, layer: usize) -> (r: (i64, i64))
        requires
            2 <= self.sides <= 0x40_0000,
            layer < self.sides,
        ensures
            span_of(r) == neg_layer_span(self.sides as int, layer as int),
    {
        let depth = self.depth(layer);
        let offset = -(self.offset() as i64);
        (offset + depth, offset + depth)
    }

    fn pos_layer(&self, layer: usize) -> (r: (i64, i64))
        requires
            2 <= self.sides <= 0x40_0000,
            layer < self.sides,
        ensures
            span_of(r) == pos_layer_span(self.sides as int, layer as int),
    {
        let depth = self.depth(layer);
        let offset = self.offset() as i64;
        (offset - depth, offset - depth)
    }

    fn neg_range(&self, layers: usize) -> (r: (i64, i64))
        requires
            2 <= self.sides <= 0x40_0000,
            layers <= self.sides,
        ensures
            span_of(r) == neg_range_span(self.sides as int, layers as int),
    {
        let depth = self.last_depth(layers);
        let offset = -(self.offset() as i64);
        (offset, offset + depth)
    }

    fn pos_range(&self, layers: usize) -> (r: (i64, i64))
        requires
            2 <= self.sides <= 0x40_0000,
            layers <= self.sides,
        ensures
            span_of(r) == pos_range_span(self.sides as int, layers as int),
    {
        let depth = self.last_depth(layers);
        let offset = self.offset() as i64;
        (offset - depth, offset)
    }

    /// Distance from a face to the layer `layer` steps inward.
    fn depth(&self, layer: usize) -> (r: i64)
        requires
            2 <= self.sides <= 0x40_0000,
            layer <= self.sides,
        ensures
            r == layer * step(self.sides as int),
            0 <= r <= 2 * 0x40_0000,
    {
        let step = self.step() as i64;
        proof {
            assert(0 <= layer * step <= 2 * 0x40_0000) by (nonlinear_arith)
                requires
                    layer <= 0x40_0000,
                    1 <= step <= 2,
            ;
        }
        layer as i64 * step
    }

    /// Distance from a face to the innermost of its `layers` outermost layers.
    fn last_depth(&self, layers: usize) -> (r: i64)
        requires
            2 <= self.sides <= 0x40_0000,
            layers <= self.sides,
        ensures
            r == (layers - 1) * step(self.sides as int),
            -2 <= r <= 2 * 0x40_0000,
    {
        let step = self.step() as i64;
        proof {
            assert(-2 <= (layers - 1) * step <= 2 * 0x40_0000) by (nonlinear_arith)
                requires
                    layers <= 0x40_0000,
                    1 <= step <= 2,
            ;
        }
        (layers as i64 - 1) * step
    }

    /// The lattice point with per-axis indices `z`, `x` and `y`.
    fn index_to_coords(&self, z: usize, x: usize, y: usize) -> (r: Vec3)
        requires
            2 <= self.sides <= 0x40_0000,
            z < self.sides,
            x < self.sides,
            y < self.sides,
        ensures
            r == grid_point(self.sides as int, z as int, x as int, y as int),
    {
        let offset = self.offset() as i64;
        let step = self.step() as i64;
        proof {
            assert(forall|k: int|
                0 <= k <= 0x40_0000 ==> 0 <= #[trigger] (k * step) <= 2 * 0x40_0000)
                by (nonlinear_arith)
                requires
                    1 <= step <= 2,
            ;
        }
        let xc = x as i64 * step - offset;
        let yc = y as i64 * step - offset;
        let zc = z as i64 * step - offset;
        Vec3::new(xc, yc, zc)
    }

    fn even_sides(&self) -> (r: bool)
        ensures
            r == (self.sides % 2 == 0),
    {
        self.sides % 2 == 0
    }

    fn offset(&self) -> (r: usize)
        requires
            2 <= self.sides,
        ensures
            r == offset(self.sides as int),
    {
        if self.even_sides() {
            self.sides - 1
        } else {
            self.sides / 2
        }
    }

    fn step(&self) -> (r: usize)
        ensures
            r == step(self.sides as int),
    {
        if self.even_sides() {
            2
        } else {
            1
        }
    }
}

} // verus!
