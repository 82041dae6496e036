//! The cube itself: its cells, its layers, and the moves on it.

use crate::color::Face;
use crate::grid::{
    cell_of, colored, cubic, grid_of, in_cube, is_solved, layer_of, place_of, slice, turned,
    turned_all, turned_times, well_formed, with_slice, Grid,
};
use crate::laws::{
    lemma_four_turns, lemma_turn_keeps_pattern, lemma_turned_by_layer, lemma_turns_keep_pattern,
};
use crate::layer::{cells, CubeLayer};
use crate::moves::{Axis, Move};
use crate::piece::Piece;
use vstd::prelude::*;

verus! {

/// A cube with `LAYERS` layers along each axis.
#[derive(Debug, PartialEq, Eq)]
pub struct Cube<const LAYERS: usize> {
    /// In order from outer to inner arrays these encode the x, y and z axes,
    /// so that the piece in the cell `(x, y, z)` is `content[x][y][z]`.
    pub content: [[[Piece; LAYERS]; LAYERS]; LAYERS],
}

impl<const LAYERS: usize> View for Cube<LAYERS> {
    type V = Grid;

    open spec fn view(&self) -> Grid {
        grid_of(LAYERS as nat, |x: int, y: int, z: int| self.content[x][y][z])
    }
}

/// The cell of the cube that the place `(u, v)` of layer `index` along
/// `axis` stands for.
pub fn cell(axis: Axis, index: usize, u: usize, v: usize) -> (c: (usize, usize, usize))
    ensures
        (c.0 as int, c.1 as int, c.2 as int) == cell_of(axis, index as int, u as int, v as int),
{
    match axis {
        Axis::X => (index, u, v),
        Axis::Y => (v, index, u),
        Axis::Z => (u, v, index),
    }
}

impl<const LAYERS: usize> Cube<LAYERS> {
    /// The view of a cube with `LAYERS` layers is a cube of side `LAYERS`.
    pub proof fn lemma_view_cubic(self)
        ensures
            cubic(self@),
            self@.len() == LAYERS,
    {
    }

    /// Two cubes with one view are one cube: the view leaves nothing out.
    pub proof fn lemma_view_injective(self, other: Self)
        requires
            self@ == other@,
        ensures
            self == other,
    {
        assert forall|x: int| 0 <= x < LAYERS implies self.content[x] == other.content[x] by {
            assert forall|y: int| 0 <= y < LAYERS implies self.content[x][y]
                == other.content[x][y] by {
                assert forall|z: int| 0 <= z < LAYERS implies self.content[x][y][z]
                    == other.content[x][y][z] by {
                    assert(self@[x][y][z] == self.content[x][y][z]);
                    assert(other@[x][y][z] == other.content[x][y][z]);
                }
                assert(self.content[x][y] =~= other.content[x][y]);
            }
            assert(self.content[x] =~= other.content[x]);
        }
        assert(self.content =~= other.content);
    }

    /// A cube on which one move was made four times in a row is the cube
    /// that it was before, piece by piece.
    pub proof fn lemma_full_turn(self, after: Self, m: Move)
        requires
            after@ == turned_times(self@, m, 4),
        ensures
            after == self,
    {
        self.lemma_view_cubic();
        lemma_four_turns(self@, m);
        after.lemma_view_injective(self);
    }

    /// Takes layer `index` along `axis` out of the cube, as a copy. The
    /// place `(u, v)` of the layer stands for the cell `(index, u, v)` on
    /// the x axis, `(v, index, u)` on the y axis and `(u, v, index)` on the
    /// z axis.
    pub fn layer(&self, axis: Axis, index: usize) -> (out: CubeLayer<Piece, LAYERS>)
        requires
            index < LAYERS,
        ensures
            out@ == slice(self@, axis, index as int),
    {
        let ghost want = slice(self@, axis, index as int);
        let mut out = [[Piece::blank(); LAYERS]; LAYERS];
        for u in 0..LAYERS
            invariant
                index < LAYERS,
                want == slice(self@, axis, index as int),
                forall|a: int, b: int|
                    #![trigger want[a][b]]
                    0 <= a < u && 0 <= b < LAYERS ==> cells(out)[a][b] == want[a][b],
        {
            for v in 0..LAYERS
                invariant
                    index < LAYERS,
                    u < LAYERS,
                    want == slice(self@, axis, index as int),
                    forall|a: int, b: int|
                        #![trigger want[a][b]]
                        0 <= a < LAYERS && 0 <= b < LAYERS && (a < u || (a == u && b < v))
                            ==> cells(out)[a][b] == want[a][b],
            {
                let (x, y, z) = cell(axis, index, u, v);
                out[u][v] = self.content[x][y][z];
            }
        }
        let out = CubeLayer(out);
        assert(out@ =~~= want);
        out
    }

    /// Puts `layer` into the cube as layer `index` along `axis`. No cell of
    /// another layer changes.
    pub fn put_layer(&mut self, axis: Axis, index: usize, layer: &CubeLayer<Piece, LAYERS>)
        requires
            index < LAYERS,
        ensures
            final(self)@ == with_slice(old(self)@, axis, index as int, layer@),
    {
        let ghost n = LAYERS as nat;
        let ghost i = index as int;
        let ghost before = self@;
        for u in 0..LAYERS
            invariant
                n == LAYERS,
                i == index,
                index < LAYERS,
                forall|x: int, y: int, z: int|
                    #![trigger in_cube(n, x, y, z)]
                    #![trigger self@[x][y][z]]
                    in_cube(n, x, y, z) ==> self@[x][y][z] == if layer_of(axis, x, y, z) == i
                        && place_of(axis, x, y, z).0 < u {
                        layer@[place_of(axis, x, y, z).0][place_of(axis, x, y, z).1]
                    } else {
                        before[x][y][z]
                    },
        {
            for v in 0..LAYERS
                invariant
                    n == LAYERS,
                    i == index,
                    index < LAYERS,
                    u < LAYERS,
                    forall|x: int, y: int, z: int|
                        #![trigger in_cube(n, x, y, z)]
                        #![trigger self@[x][y][z]]
                        in_cube(n, x, y, z) ==> self@[x][y][z] == if layer_of(axis, x, y, z) == i
                            && (place_of(axis, x, y, z).0 < u || (place_of(axis, x, y, z).0 == u
                            && place_of(axis, x, y, z).1 < v)) {
                            layer@[place_of(axis, x, y, z).0][place_of(axis, x, y, z).1]
                        } else {
                            before[x][y][z]
                        },
            {
                let (x, y, z) = cell(axis, index, u, v);
                self.content[x][y][z] = layer.0[u][v];
            }
        }
        assert(self@ =~~= with_slice(before, axis, i, layer@));
    }

    /// Takes layer `layer` along the x axis out of the cube, as a copy.
    pub fn x_layer(&self, layer: usize) -> (out: CubeLayer<Piece, LAYERS>)
        requires
            layer < LAYERS,
        ensures
            out@ == slice(self@, Axis::X, layer as int),
    {
        self.layer(Axis::X, layer)
    }

    /// Takes layer `layer` along the y axis out of the cube, as a copy.
    pub fn y_layer(&self, layer: usize) -> (out: CubeLayer<Piece, LAYERS>)
        requires
            layer < LAYERS,
        ensures
            out@ == slice(self@, Axis::Y, layer as int),
    {
        self.layer(Axis::Y, layer)
    }

    /// Takes layer `layer` along the z axis out of the cube, as a copy.
    pub fn z_layer(&self, layer: usize) -> (out: CubeLayer<Piece, LAYERS>)
        requires
            layer < LAYERS,
        ensures
            out@ == slice(self@, Axis::Z, layer as int),
    {
        self.layer(Axis::Z, layer)
    }

    /// Makes the move `move_` on the cube: the layer that the move names
    /// turns by a quarter, and nothing else changes. A cube that had
    /// `Inside` on the faces that look into it, and only there, still has.
    pub fn apply(&mut self, move_: Move)
        requires
            move_.layer() < LAYERS,
        ensures
            final(self)@ == turned(old(self)@, move_),
            well_formed(old(self)@) ==> well_formed(final(self)@),
    {
        match move_ {
            Move::X(layer) => {
                let mut cells = self.x_layer(layer);
                cells.rotate_x();
                self.put_layer(Axis::X, layer, &cells);
            },
            Move::Y(layer) => {
                let mut cells = self.y_layer(layer);
                cells.rotate_y();
                self.put_layer(Axis::Y, layer, &cells);
            },
            Move::Z(layer) => {
                let mut cells = self.z_layer(layer);
                cells.rotate_z();
                self.put_layer(Axis::Z, layer, &cells);
            },
        }
        proof {
            lemma_turned_by_layer(old(self)@, move_);
            if well_formed(old(self)@) {
                lemma_turn_keeps_pattern(old(self)@, move_);
            }
        }
    }

    /// Makes the moves `moves` on the cube, one after the other.
    pub fn apply_all(&mut self, moves: &[Move])
        requires
            forall|k: int| 0 <= k < moves.len() ==> (#[trigger] moves[k]).layer() < LAYERS,
        ensures
            final(self)@ == turned_all(old(self)@, moves@),
            well_formed(old(self)@) ==> well_formed(final(self)@),
    {
        for k in 0..moves.len()
            invariant
                forall|j: int| 0 <= j < moves.len() ==> (#[trigger] moves[j]).layer() < LAYERS,
                self@ == turned_all(old(self)@, moves@.take(k as int)),
        {
            proof {
                assert(moves@.take(k + 1).drop_last() =~= moves@.take(k as int));
            }
            self.apply(moves[k]);
        }
        proof {
            assert(moves@.take(moves.len() as int) =~= moves@);
            if well_formed(old(self)@) {
                lemma_turns_keep_pattern(old(self)@, moves@);
            }
        }
    }

    /// Whether every facelet of the cube has a color: no face on the
    /// outside of the cube is `Inside`.
    pub fn is_colored(&self) -> (yes: bool)
        requires
            LAYERS >= 1,
        ensures
            yes == colored(self@),
    {
        self.x_layer(0).is_colored(Face::Left) && self.x_layer(LAYERS - 1).is_colored(Face::Right)
            && self.y_layer(0).is_colored(Face::Top) && self.y_layer(LAYERS - 1).is_colored(
            Face::Bottom,
        ) && self.z_layer(0).is_colored(Face::Front) && self.z_layer(LAYERS - 1).is_colored(
            Face::Back,
        )
    }

    /// Whether the cube is solved: each of its six sides shows one color on
    /// all its facelets. Every facelet must have a color. The cube stays as
    /// it is.
    pub fn solved(&mut self) -> (yes: bool)
        requires
            LAYERS >= 1,
            colored(old(self)@),
        ensures
            yes == is_solved(old(self)@),
            *final(self) == *old(self),
    {
        self.x_layer(0).all_eq(Face::Left) && self.x_layer(LAYERS - 1).all_eq(Face::Right)
            && self.y_layer(0).all_eq(Face::Top) && self.y_layer(LAYERS - 1).all_eq(Face::Bottom)
            && self.z_layer(0).all_eq(Face::Front) && self.z_layer(LAYERS - 1).all_eq(Face::Back)
    }
}

} // verus!
