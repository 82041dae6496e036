//! Building a cube from the colors of its six sides.

use crate::color::{Color, Face};
use crate::cube::Cube;
use crate::grid::{
    assembled, canonical, colored, grid_of, in_cube, is_solved, well_formed, with_side,
};
use crate::laws::{
    lemma_assembled_well_formed, lemma_canonical_solved, lemma_grids_equal,
    lemma_well_formed_colored,
};
use crate::layer::{cells, no_inside, swap_axes};
use crate::moves::Axis;
use crate::piece::Piece;
use vstd::prelude::*;

verus! {

impl<const LAYERS: usize> Cube<LAYERS> {
    /// A cube without facelets: every face of every piece is `Inside`.
    pub fn blank() -> (out: Self)
        ensures
            out@ == grid_of(LAYERS as nat, |x: int, y: int, z: int| Piece::hidden()),
    {
        let out = Cube { content: [[[Piece::blank(); LAYERS]; LAYERS]; LAYERS] };
        assert(out@ =~~= grid_of(LAYERS as nat, |x: int, y: int, z: int| Piece::hidden()));
        out
    }

    /// Paints the facelets of one side of the cube. `colors` gives the
    /// colors of the side row by row.
    pub fn color_side(&mut self, face: Face, colors: [[Color; LAYERS]; LAYERS])
        requires
            LAYERS >= 1,
        ensures
            final(self)@ == with_side(old(self)@, face, cells(colors)),
    {
        let swapped = swap_axes(colors);
        let (axis, index, far) = match face {
            Face::Left => (Axis::X, 0, false),
            Face::Right => (Axis::X, LAYERS - 1, true),
            Face::Top => (Axis::Y, 0, false),
            Face::Bottom => (Axis::Y, LAYERS - 1, true),
            Face::Front => (Axis::Z, 0, false),
            Face::Back => (Axis::Z, LAYERS - 1, true),
        };
        let mut layer = self.layer(axis, index);
        if far {
            layer = layer.flip();
        }
        layer.color_face(&swapped, face);
        if far {
            layer = layer.flip();
        }
        self.put_layer(axis, index, &layer);
        proof {
            let n = LAYERS as nat;
            let want = with_side(old(self)@, face, cells(colors));
            assert forall|x: int, y: int, z: int|
                #![trigger in_cube(n, x, y, z)]
                in_cube(n, x, y, z) implies self@[x][y][z] == want[x][y][z] by {
            }
            lemma_grids_equal(self@, want);
        }
    }
}

/// Builds a cube from the colors of its six sides, each given row by row.
/// The faces of the pieces that look into the cube are `Inside`.
pub fn cube<const LAYERS: usize>(
    top: [[Color; LAYERS]; LAYERS],
    bottom: [[Color; LAYERS]; LAYERS],
    left: [[Color; LAYERS]; LAYERS],
    right: [[Color; LAYERS]; LAYERS],
    front: [[Color; LAYERS]; LAYERS],
    back: [[Color; LAYERS]; LAYERS],
) -> (out: Cube<LAYERS>)
    requires
        LAYERS >= 1,
    ensures
        out@ == assembled(
            LAYERS as nat,
            cells(top),
            cells(bottom),
            cells(left),
            cells(right),
            cells(front),
            cells(back),
        ),
        no_inside(cells(top), LAYERS as nat) && no_inside(cells(bottom), LAYERS as nat)
            && no_inside(cells(left), LAYERS as nat) && no_inside(cells(right), LAYERS as nat)
            && no_inside(cells(front), LAYERS as nat) && no_inside(cells(back), LAYERS as nat)
            ==> well_formed(out@) && colored(out@),
{
    let mut cube = Cube::blank();
    cube.color_side(Face::Left, left);
    cube.color_side(Face::Right, right);
    cube.color_side(Face::Top, top);
    cube.color_side(Face::Bottom, bottom);
    cube.color_side(Face::Front, front);
    cube.color_side(Face::Back, back);
    proof {
        let n = LAYERS as nat;
        let want = assembled(
            n,
            cells(top),
            cells(bottom),
            cells(left),
            cells(right),
            cells(front),
            cells(back),
        );
        assert forall|x: int, y: int, z: int|
            #![trigger in_cube(n, x, y, z)]
            in_cube(n, x, y, z) implies cube@[x][y][z] == want[x][y][z] by {
        }
        lemma_grids_equal(cube@, want);
        if no_inside(cells(top), n) && no_inside(cells(bottom), n) && no_inside(cells(left), n)
            && no_inside(cells(right), n) && no_inside(cells(front), n) && no_inside(
            cells(back),
            n,
        ) {
            lemma_assembled_well_formed(
                n,
                cells(top),
                cells(bottom),
                cells(left),
                cells(right),
                cells(front),
                cells(back),
            );
            lemma_well_formed_colored(want);
        }
    }
    cube
}

/// The solved cube: white on top, yellow at the bottom, red on the left,
/// orange on the right, blue in front and green at the back.
pub fn solved<const LAYERS: usize>() -> (out: Cube<LAYERS>)
    requires
        LAYERS >= 1,
    ensures
        out@ == canonical(LAYERS as nat),
        well_formed(out@),
        colored(out@),
        is_solved(out@),
{
    let out = cube(
        [[Color::White; LAYERS]; LAYERS],
        [[Color::Yellow; LAYERS]; LAYERS],
        [[Color::Red; LAYERS]; LAYERS],
        [[Color::Orange; LAYERS]; LAYERS],
        [[Color::Blue; LAYERS]; LAYERS],
        [[Color::Green; LAYERS]; LAYERS],
    );
    proof {
        let n = LAYERS as nat;
        assert forall|x: int, y: int, z: int|
            #![trigger in_cube(n, x, y, z)]
            in_cube(n, x, y, z) implies out@[x][y][z] == canonical(n)[x][y][z] by {
        }
        lemma_grids_equal(out@, canonical(n));
        lemma_canonical_solved(n);
    }
    out
}

} // verus!
