//! The state of a cube as a mathematical object, and what a move does to
//! it.

use crate::color::{Color, Face};
use crate::layer::{all_colored, uniform};
use crate::moves::{Axis, Move};
use crate::piece::Piece;
use vstd::prelude::*;

verus! {

/// The pieces of a cube by their coordinates: `g[x][y][z]` is the piece in
/// the cell `(x, y, z)`. The cells with `x == 0` form the left side of the
/// cube and those with the largest `x` the right side; `y` runs from top to
/// bottom and `z` from front to back in the same way.
pub type Grid = Seq<Seq<Seq<Piece>>>;

/// Whether `g` is a cube: with `n` its length, it has a piece for each cell
/// `(x, y, z)` with all three coordinates below `n`, and no others.
pub open spec fn cubic(g: Grid) -> bool {
    &&& forall|x: int| 0 <= x < g.len() ==> (#[trigger] g[x]).len() == g.len()
    &&& forall|x: int, y: int|
        0 <= x < g.len() && 0 <= y < g.len() ==> (#[trigger] g[x][y]).len() == g.len()
}

/// Whether a cube of side `n` has a cell `(x, y, z)`.
pub open spec fn in_cube(n: nat, x: int, y: int, z: int) -> bool {
    0 <= x < n && 0 <= y < n && 0 <= z < n
}

/// The cube of side `n` that has the piece `f(x, y, z)` in the cell
/// `(x, y, z)`.
pub open spec fn grid_of(n: nat, f: spec_fn(int, int, int) -> Piece) -> Grid {
    Seq::new(n, |x: int| Seq::new(n, |y: int| Seq::new(n, |z: int| f(x, y, z))))
}

/// The cell of the cube that the place `(u, v)` of layer `i` along `axis`
/// stands for.
pub open spec fn cell_of(axis: Axis, i: int, u: int, v: int) -> (int, int, int) {
    match axis {
        Axis::X => (i, u, v),
        Axis::Y => (v, i, u),
        Axis::Z => (u, v, i),
    }
}

/// The layer along `axis` in which the cell `(x, y, z)` lies.
pub open spec fn layer_of(axis: Axis, x: int, y: int, z: int) -> int {
    match axis {
        Axis::X => x,
        Axis::Y => y,
        Axis::Z => z,
    }
}

/// The place that the cell `(x, y, z)` has within its layer along `axis`.
pub open spec fn place_of(axis: Axis, x: int, y: int, z: int) -> (int, int) {
    match axis {
        Axis::X => (y, z),
        Axis::Y => (z, x),
        Axis::Z => (x, y),
    }
}

/// Layer `i` of `g` along `axis`, as a square of pieces.
pub open spec fn slice(g: Grid, axis: Axis, i: int) -> Seq<Seq<Piece>> {
    Seq::new(
        g.len(),
        |u: int|
            Seq::new(
                g.len(),
                |v: int|
                    {
                        let c = cell_of(axis, i, u, v);
                        g[c.0][c.1][c.2]
                    },
            ),
    )
}

/// The cube `g` with layer `i` along `axis` replaced by the square `s`.
pub open spec fn with_slice(g: Grid, axis: Axis, i: int, s: Seq<Seq<Piece>>) -> Grid {
    grid_of(
        g.len(),
        |x: int, y: int, z: int|
            if layer_of(axis, x, y, z) == i {
                let p = place_of(axis, x, y, z);
                s[p.0][p.1]
            } else {
                g[x][y][z]
            },
    )
}

/// The piece that the cell `(x, y, z)` holds after the move `m` on `g`. A
/// cell of the layer that turns gets the piece that sat a quarter turn
/// before it, turned about the axis; any other cell keeps its piece.
pub open spec fn piece_after(g: Grid, m: Move, x: int, y: int, z: int) -> Piece {
    let n = g.len();
    match m {
        Move::X(i) => if x == i {
            g[x][z][n - 1 - y].turned_x()
        } else {
            g[x][y][z]
        },
        Move::Y(i) => if y == i {
            g[n - 1 - z][y][x].turned_y()
        } else {
            g[x][y][z]
        },
        Move::Z(i) => if z == i {
            g[y][n - 1 - x][z].turned_z()
        } else {
            g[x][y][z]
        },
    }
}

/// The cube `g` after the move `m`.
pub open spec fn turned(g: Grid, m: Move) -> Grid {
    grid_of(g.len(), |x: int, y: int, z: int| piece_after(g, m, x, y, z))
}

/// The cube `g` after the moves `ms`, made in their order.
pub open spec fn turned_all(g: Grid, ms: Seq<Move>) -> Grid
    decreases ms.len(),
{
    if ms.len() == 0 {
        g
    } else {
        turned(turned_all(g, ms.drop_last()), ms.last())
    }
}

/// The cube `g` after the move `m` made `k` times.
pub open spec fn turned_times(g: Grid, m: Move, k: nat) -> Grid
    decreases k,
{
    if k == 0 {
        g
    } else {
        turned(turned_times(g, m, (k - 1) as nat), m)
    }
}

/// Whether `face` of the piece in the cell `(x, y, z)` of a cube of side
/// `n` lies on the outside of the cube, where it is a facelet.
pub open spec fn outward(n: nat, x: int, y: int, z: int, face: Face) -> bool {
    match face {
        Face::Top => y == 0,
        Face::Bottom => y == n - 1,
        Face::Left => x == 0,
        Face::Right => x == n - 1,
        Face::Front => z == 0,
        Face::Back => z == n - 1,
    }
}

/// The color that the side `colors` of a cube of side `n`, given row by
/// row, has for the facelet on `face` of the cell `(x, y, z)`.
pub open spec fn side_color(
    n: nat,
    colors: Seq<Seq<Color>>,
    face: Face,
    x: int,
    y: int,
    z: int,
) -> Color {
    match face {
        Face::Top => colors[x][z],
        Face::Bottom => colors[x][n - 1 - z],
        Face::Left => colors[z][y],
        Face::Right => colors[z][n - 1 - y],
        Face::Front => colors[y][x],
        Face::Back => colors[y][n - 1 - x],
    }
}

/// The cube `g` with the facelets of one side painted: each piece that has
/// `face` on the outside gets there the color that `colors` has for it.
pub open spec fn with_side(g: Grid, face: Face, colors: Seq<Seq<Color>>) -> Grid {
    grid_of(
        g.len(),
        |x: int, y: int, z: int|
            if outward(g.len(), x, y, z, face) {
                g[x][y][z].with_color(face, side_color(g.len(), colors, face, x, y, z))
            } else {
                g[x][y][z]
            },
    )
}

/// The color that `face` of the piece in the cell `(x, y, z)` of a cube of
/// side `n` has when the facelets of that side have the colors `colors`: the
/// color of its facelet where the face lies on the outside, else `Inside`.
pub open spec fn facelet(
    n: nat,
    colors: Seq<Seq<Color>>,
    face: Face,
    x: int,
    y: int,
    z: int,
) -> Color {
    if outward(n, x, y, z, face) {
        side_color(n, colors, face, x, y, z)
    } else {
        Color::Inside
    }
}

/// The cube of side `n` that is built from six sides of colors. Each side
/// is given row by row. A face of a piece that lies on the outside gets its
/// color from the side it belongs to; every other face is `Inside`.
pub open spec fn assembled(
    n: nat,
    top: Seq<Seq<Color>>,
    bottom: Seq<Seq<Color>>,
    left: Seq<Seq<Color>>,
    right: Seq<Seq<Color>>,
    front: Seq<Seq<Color>>,
    back: Seq<Seq<Color>>,
) -> Grid {
    grid_of(
        n,
        |x: int, y: int, z: int|
            Piece {
                top: facelet(n, top, Face::Top, x, y, z),
                bottom: facelet(n, bottom, Face::Bottom, x, y, z),
                left: facelet(n, left, Face::Left, x, y, z),
                right: facelet(n, right, Face::Right, x, y, z),
                front: facelet(n, front, Face::Front, x, y, z),
                back: facelet(n, back, Face::Back, x, y, z),
            },
    )
}

/// The color that the solved cube shows on `face`.
pub open spec fn home_color(face: Face) -> Color {
    match face {
        Face::Top => Color::White,
        Face::Bottom => Color::Yellow,
        Face::Left => Color::Red,
        Face::Right => Color::Orange,
        Face::Front => Color::Blue,
        Face::Back => Color::Green,
    }
}

/// The color that the solved cube of side `n` has on `face` of the piece in
/// the cell `(x, y, z)`.
pub open spec fn home_facelet(n: nat, face: Face, x: int, y: int, z: int) -> Color {
    if outward(n, x, y, z, face) {
        home_color(face)
    } else {
        Color::Inside
    }
}

/// The solved cube of side `n`: each facelet has the color of its side.
pub open spec fn canonical(n: nat) -> Grid {
    grid_of(
        n,
        |x: int, y: int, z: int|
            Piece {
                top: home_facelet(n, Face::Top, x, y, z),
                bottom: home_facelet(n, Face::Bottom, x, y, z),
                left: home_facelet(n, Face::Left, x, y, z),
                right: home_facelet(n, Face::Right, x, y, z),
                front: home_facelet(n, Face::Front, x, y, z),
                back: home_facelet(n, Face::Back, x, y, z),
            },
    )
}

/// Whether `g` and `h` have `Inside` in the same places: on the same faces
/// of the pieces in the same cells.
pub open spec fn same_pattern(g: Grid, h: Grid) -> bool {
    &&& g.len() == h.len()
    &&& forall|x: int, y: int, z: int|
        #![trigger g[x][y][z]]
        #![trigger h[x][y][z]]
        in_cube(g.len(), x, y, z) ==> g[x][y][z].same_faces(h[x][y][z])
}

/// Whether `g` is a cube whose pieces have `Inside` exactly where the
/// solved cube of the same side has it: on the faces that look into the
/// cube, and on no facelet.
pub open spec fn well_formed(g: Grid) -> bool {
    &&& cubic(g)
    &&& same_pattern(g, canonical(g.len()))
}

/// Whether every facelet of `g` has a color: no face on the outside of the
/// cube is `Inside`.
pub open spec fn colored(g: Grid) -> bool {
    let n = g.len() as int;
    &&& all_colored(slice(g, Axis::X, 0), Face::Left)
    &&& all_colored(slice(g, Axis::X, n - 1), Face::Right)
    &&& all_colored(slice(g, Axis::Y, 0), Face::Top)
    &&& all_colored(slice(g, Axis::Y, n - 1), Face::Bottom)
    &&& all_colored(slice(g, Axis::Z, 0), Face::Front)
    &&& all_colored(slice(g, Axis::Z, n - 1), Face::Back)
}

/// Whether `g` is solved: each of its six sides shows one color on all its
/// facelets.
pub open spec fn is_solved(g: Grid) -> bool {
    let n = g.len() as int;
    &&& uniform(slice(g, Axis::X, 0), Face::Left)
    &&& uniform(slice(g, Axis::X, n - 1), Face::Right)
    &&& uniform(slice(g, Axis::Y, 0), Face::Top)
    &&& uniform(slice(g, Axis::Y, n - 1), Face::Bottom)
    &&& uniform(slice(g, Axis::Z, 0), Face::Front)
    &&& uniform(slice(g, Axis::Z, n - 1), Face::Back)
}

} // verus!
