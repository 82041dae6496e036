//! One layer of the cube: a square of cells, and the quarter turn that
//! moves the cells of a square to their new places.
//!
//! The squares of the contracts are sequences of rows: `s[u][v]` is the cell
//! in row `u` and column `v`.

use crate::color::{Color, Face};
use crate::moves::Axis;
use crate::piece::{rotate, Piece};
use vstd::prelude::*;

verus! {

/// The cells of a square array as rows of cells.
pub open spec fn cells<T, const N: usize>(a: [[T; N]; N]) -> Seq<Seq<T>> {
    Seq::new(N as nat, |u: int| Seq::new(N as nat, |v: int| a[u][v]))
}

/// The square `s` after a quarter turn: the cell at `(u, v)` holds what was
/// at `(v, n - 1 - u)`.
pub open spec fn quarter_turn<T>(s: Seq<Seq<T>>) -> Seq<Seq<T>> {
    Seq::new(s.len(), |u: int| Seq::new(s.len(), |v: int| s[v][s.len() - 1 - u]))
}

/// The square `s` mirrored in its diagonal: rows become columns.
pub open spec fn transposed<T>(s: Seq<Seq<T>>) -> Seq<Seq<T>> {
    Seq::new(s.len(), |u: int| Seq::new(s.len(), |v: int| s[v][u]))
}

/// The square `s` with its rows in reverse order.
pub open spec fn flipped<T>(s: Seq<Seq<T>>) -> Seq<Seq<T>> {
    Seq::new(s.len(), |u: int| s[s.len() - 1 - u])
}

/// A layer of pieces after a quarter turn about `axis`: the pieces change
/// places as in [`quarter_turn`], and each piece is turned about the axis.
pub open spec fn turned_layer(s: Seq<Seq<Piece>>, axis: Axis) -> Seq<Seq<Piece>> {
    Seq::new(
        s.len(),
        |u: int| Seq::new(s.len(), |v: int| s[v][s.len() - 1 - u].turned(axis)),
    )
}

/// The layer `s` with `face` of each piece painted in the color that
/// `colors` has at the same place.
pub open spec fn painted(s: Seq<Seq<Piece>>, colors: Seq<Seq<Color>>, face: Face) -> Seq<
    Seq<Piece>,
> {
    Seq::new(
        s.len(),
        |u: int| Seq::new(s.len(), |v: int| s[u][v].with_color(face, colors[u][v])),
    )
}

/// Whether no piece of the layer `s` shows `Inside` on `face`.
pub open spec fn all_colored(s: Seq<Seq<Piece>>, face: Face) -> bool {
    forall|u: int, v: int|
        0 <= u < s.len() && 0 <= v < s.len() ==> (#[trigger] s[u][v]).color(face) != Color::Inside
}

/// Whether all pieces of the layer `s` show one color on `face`.
pub open spec fn uniform(s: Seq<Seq<Piece>>, face: Face) -> bool {
    forall|u: int, v: int|
        0 <= u < s.len() && 0 <= v < s.len() ==> (#[trigger] s[u][v]).color(face)
            == s[0][0].color(face)
}

/// Whether none of the `n` rows of `n` colors in `colors` holds `Inside`.
pub open spec fn no_inside(colors: Seq<Seq<Color>>, n: nat) -> bool {
    forall|u: int, v: int| 0 <= u < n && 0 <= v < n ==> #[trigger] colors[u][v] != Color::Inside
}

/// Whether a square of side `n` has a cell `(u, v)`.
spec fn in_square(n: int, u: int, v: int) -> bool {
    0 <= u < n && 0 <= v < n
}

/// Whether the cell `(u, v)` lies in the square that ring `i` of a layer of
/// side `n` encloses, the ring itself included.
spec fn within(u: int, v: int, i: int, n: int) -> bool {
    i <= u < n - i && i <= v < n - i
}

/// Whether the cell `(u, v)` already holds its content after the turn, when
/// the rings before ring `i` are done and ring `i` is done up to offset `j`.
spec fn settled(u: int, v: int, i: int, j: int, n: int) -> bool {
    ||| !within(u, v, i, n)
    ||| (v == i && u < i + j)
    ||| (u == n - 1 - i && v < i + j)
    ||| (v == n - 1 - i && u > n - 1 - i - j)
    ||| (u == i && v > n - 1 - i - j)
}

/// Mirrors a square array in its diagonal.
pub fn swap_axes<T: Copy, const N: usize>(grid: [[T; N]; N]) -> (out: [[T; N]; N])
    ensures
        cells(out) == transposed(cells(grid)),
{
    let mut out = grid;
    for u in 0..N
        invariant
            forall|a: int, b: int|
                #![trigger in_square(N as int, a, b)]
                #![trigger cells(out)[a][b]]
                in_square(N as int, a, b) ==> cells(out)[a][b] == if a < u {
                    cells(grid)[b][a]
                } else {
                    cells(grid)[a][b]
                },
    {
        for v in 0..N
            invariant
                u < N,
                forall|a: int, b: int|
                    #![trigger in_square(N as int, a, b)]
                    #![trigger cells(out)[a][b]]
                    in_square(N as int, a, b) ==> cells(out)[a][b] == if a < u || (a == u && b
                        < v) {
                        cells(grid)[b][a]
                    } else {
                        cells(grid)[a][b]
                    },
        {
            out[u][v] = grid[v][u];
        }
    }
    assert(cells(out) =~~= transposed(cells(grid)));
    out
}

/// One layer of a cube with `LAYERS` layers, taken out of the cube: its
/// cells, addressed by the two coordinates that run within the layer. The
/// layer holds its cells itself; what is done to them shows in the cube
/// once the layer is put back.
#[derive(Debug)]
pub struct CubeLayer<T, const LAYERS: usize>(pub [[T; LAYERS]; LAYERS]);

impl<T, const LAYERS: usize> View for CubeLayer<T, LAYERS> {
    type V = Seq<Seq<T>>;

    open spec fn view(&self) -> Seq<Seq<T>> {
        cells(self.0)
    }
}

impl<T: Copy, const LAYERS: usize> CubeLayer<T, LAYERS> {
    /// Moves the contents of four distinct cells one place along the cycle
    /// `indices[0]` → `indices[1]` → `indices[2]` → `indices[3]` →
    /// `indices[0]`. No other cell changes.
    pub fn rotate_four(&mut self, indices: [(usize, usize); 4])
        requires
            forall|k: int| 0 <= k < 4 ==> indices[k].0 < LAYERS && indices[k].1 < LAYERS,
            forall|k: int, l: int| 0 <= k < l < 4 ==> indices[k] != indices[l],
        ensures
            final(self)@[indices[0].0 as int][indices[0].1 as int] == old(
                self,
            )@[indices[3].0 as int][indices[3].1 as int],
            final(self)@[indices[1].0 as int][indices[1].1 as int] == old(
                self,
            )@[indices[0].0 as int][indices[0].1 as int],
            final(self)@[indices[2].0 as int][indices[2].1 as int] == old(
                self,
            )@[indices[1].0 as int][indices[1].1 as int],
            final(self)@[indices[3].0 as int][indices[3].1 as int] == old(
                self,
            )@[indices[2].0 as int][indices[2].1 as int],
            forall|u: int, v: int|
                #![trigger old(self)@[u][v]]
                #![trigger final(self)@[u][v]]
                0 <= u < LAYERS && 0 <= v < LAYERS && (u, v) != (
                    indices[0].0 as int,
                    indices[0].1 as int,
                ) && (u, v) != (indices[1].0 as int, indices[1].1 as int) && (u, v) != (
                    indices[2].0 as int,
                    indices[2].1 as int,
                ) && (u, v) != (indices[3].0 as int, indices[3].1 as int) ==> final(self)@[u][v]
                    == old(self)@[u][v],
    {
        let (a, b, c, d) = (indices[0], indices[1], indices[2], indices[3]);
        let mut at_a = self.0[a.0][a.1];
        let mut at_b = self.0[b.0][b.1];
        let mut at_c = self.0[c.0][c.1];
        let mut at_d = self.0[d.0][d.1];
        rotate(&mut at_a, &mut at_b, &mut at_c, &mut at_d);
        self.0[a.0][a.1] = at_a;
        self.0[b.0][b.1] = at_b;
        self.0[c.0][c.1] = at_c;
        self.0[d.0][d.1] = at_d;
    }

    /// Turns the layer by a quarter, ring by ring from the outside in. The
    /// cell in the middle of a layer of odd side stays where it is.
    pub fn rotate(&mut self)
        ensures
            final(self)@ == quarter_turn(old(self)@),
    {
        let ghost n = LAYERS as int;
        for i in 0..LAYERS / 2
            invariant
                n == LAYERS,
                forall|u: int, v: int|
                    #![trigger in_square(n, u, v)]
                    #![trigger self@[u][v]]
                    in_square(n, u, v) ==> self@[u][v] == if within(u, v, i as int, n) {
                        old(self)@[u][v]
                    } else {
                        old(self)@[v][n - 1 - u]
                    },
        {
            let size = LAYERS - i * 2;
            for j in 0..size - 1
                invariant
                    n == LAYERS,
                    size == n - 2 * i,
                    2 * i + 2 <= n,
                    forall|u: int, v: int|
                        #![trigger in_square(n, u, v)]
                        #![trigger self@[u][v]]
                        in_square(n, u, v) ==> self@[u][v] == if settled(
                            u,
                            v,
                            i as int,
                            j as int,
                            n,
                        ) {
                            old(self)@[v][n - 1 - u]
                        } else {
                            old(self)@[u][v]
                        },
            {
                self.rotate_four(
                    [
                        (i + j, i),
                        (i + size - 1, i + j),
                        (i + size - 1 - j, i + size - 1),
                        (i, i + size - 1 - j),
                    ],
                );
            }
        }
        assert(self@ =~~= quarter_turn(old(self)@));
    }

    /// Puts the rows of the layer in reverse order.
    pub fn flip(self) -> (out: Self)
        ensures
            out@ == flipped(self@),
    {
        let mut out = self.0;
        for u in 0..LAYERS
            invariant
                forall|a: int|
                    #![trigger self.0[a]]
                    0 <= a < LAYERS ==> out[a] == if a < u {
                        self.0[LAYERS - 1 - a]
                    } else {
                        self.0[a]
                    },
        {
            out[u] = self.0[LAYERS - 1 - u];
        }
        let out = CubeLayer(out);
        assert(out@ =~~= flipped(self@));
        out
    }
}

impl<const LAYERS: usize> CubeLayer<Piece, LAYERS> {
    /// Turns the layer by a quarter about `axis`: the pieces change places,
    /// then every piece of the layer, the middle one too, is turned.
    pub fn rotate_about(&mut self, axis: Axis)
        ensures
            final(self)@ == turned_layer(old(self)@, axis),
    {
        self.rotate();
        let ghost moved = self@;
        for u in 0..LAYERS
            invariant
                moved == quarter_turn(old(self)@),
                forall|a: int, b: int|
                    #![trigger in_square(LAYERS as int, a, b)]
                    #![trigger self@[a][b]]
                    in_square(LAYERS as int, a, b) ==> self@[a][b] == if a < u {
                        moved[a][b].turned(axis)
                    } else {
                        moved[a][b]
                    },
        {
            for v in 0..LAYERS
                invariant
                    u < LAYERS,
                    moved == quarter_turn(old(self)@),
                    forall|a: int, b: int|
                        #![trigger in_square(LAYERS as int, a, b)]
                        #![trigger self@[a][b]]
                        in_square(LAYERS as int, a, b) ==> self@[a][b] == if a < u || (a == u
                            && b < v) {
                            moved[a][b].turned(axis)
                        } else {
                            moved[a][b]
                        },
            {
                self.0[u][v].rotate_about(axis);
            }
        }
        assert(self@ =~~= turned_layer(old(self)@, axis));
    }

    /// Turns the layer by a quarter about the x axis.
    pub fn rotate_x(&mut self)
        ensures
            final(self)@ == turned_layer(old(self)@, Axis::X),
    {
        self.rotate_about(Axis::X);
    }

    /// Turns the layer by a quarter about the y axis.
    pub fn rotate_y(&mut self)
        ensures
            final(self)@ == turned_layer(old(self)@, Axis::Y),
    {
        self.rotate_about(Axis::Y);
    }

    /// Turns the layer by a quarter about the z axis.
    pub fn rotate_z(&mut self)
        ensures
            final(self)@ == turned_layer(old(self)@, Axis::Z),
    {
        self.rotate_about(Axis::Z);
    }

    /// Paints `face` of each piece of the layer in the color that `colors`
    /// has at the same place.
    pub fn color_face(&mut self, colors: &[[Color; LAYERS]; LAYERS], face: Face)
        ensures
            final(self)@ == painted(old(self)@, cells(*colors), face),
    {
        for u in 0..LAYERS
            invariant
                forall|a: int, b: int|
                    #![trigger in_square(LAYERS as int, a, b)]
                    #![trigger self@[a][b]]
                    in_square(LAYERS as int, a, b) ==> self@[a][b] == if a < u {
                        old(self)@[a][b].with_color(face, colors[a][b])
                    } else {
                        old(self)@[a][b]
                    },
        {
            for v in 0..LAYERS
                invariant
                    u < LAYERS,
                    forall|a: int, b: int|
                        #![trigger in_square(LAYERS as int, a, b)]
                        #![trigger self@[a][b]]
                        in_square(LAYERS as int, a, b) ==> self@[a][b] == if a < u || (a == u
                            && b < v) {
                            old(self)@[a][b].with_color(face, colors[a][b])
                        } else {
                            old(self)@[a][b]
                        },
            {
                self.0[u][v].set(face, colors[u][v]);
            }
        }
        assert(self@ =~~= painted(old(self)@, cells(*colors), face));
    }

    /// Whether no piece of the layer shows `Inside` on `face`.
    pub fn is_colored(&self, face: Face) -> (yes: bool)
        ensures
            yes == all_colored(self@, face),
    {
        for u in 0..LAYERS
            invariant
                forall|a: int, b: int|
                    0 <= a < u && 0 <= b < LAYERS ==> (#[trigger] self@[a][b]).color(face)
                        != Color::Inside,
        {
            for v in 0..LAYERS
                invariant
                    u < LAYERS,
                    forall|a: int, b: int|
                        0 <= a < LAYERS && 0 <= b < LAYERS && (a < u || (a == u && b < v)) ==> (
                        #[trigger] self@[a][b]).color(face) != Color::Inside,
            {
                if self.0[u][v].get(face) == Color::Inside {
                    assert(self@[u as int][v as int].color(face) == Color::Inside);
                    return false;
                }
            }
        }
        true
    }

    /// Whether all pieces of the layer show one color on `face`. The face
    /// must be one of facelets: no piece may show `Inside` on it.
    pub fn all_eq(&self, face: Face) -> (same: bool)
        requires
            all_colored(self@, face),
        ensures
            same == uniform(self@, face),
    {
        for u in 0..LAYERS
            invariant
                forall|a: int, b: int|
                    0 <= a < u && 0 <= b < LAYERS ==> (#[trigger] self@[a][b]).color(face)
                        == self@[0][0].color(face),
        {
            for v in 0..LAYERS
                invariant
                    u < LAYERS,
                    forall|a: int, b: int|
                        0 <= a < LAYERS && 0 <= b < LAYERS && (a < u || (a == u && b < v)) ==> (
                        #[trigger] self@[a][b]).color(face) == self@[0][0].color(face),
            {
                if self.0[u][v].get(face) != self.0[0][0].get(face) {
                    assert(self@[u as int][v as int].color(face) != self@[0][0].color(face));
                    return false;
                }
            }
        }
        true
    }
}

} // verus!
