//! What holds of the moves: facts about [`turned`] and the functions
//! around it, each proved once and for all cubes.

use crate::color::{Color, Face};
use crate::grid::{
    assembled, canonical, colored, cubic, in_cube, is_solved, layer_of, piece_after, place_of,
    slice, turned, turned_all, turned_times, well_formed, with_slice, Grid,
};
use crate::layer::{no_inside, turned_layer};
use crate::moves::{Axis, Move};
use vstd::prelude::*;

verus! {

/// Two cubes of one side that hold equal pieces in every cell are equal.
pub proof fn lemma_grids_equal(g: Grid, h: Grid)
    requires
        cubic(g),
        cubic(h),
        g.len() == h.len(),
        forall|x: int, y: int, z: int|
            #![trigger in_cube(g.len(), x, y, z)]
            in_cube(g.len(), x, y, z) ==> g[x][y][z] == h[x][y][z],
    ensures
        g == h,
{
    let n = g.len();
    assert forall|x: int| 0 <= x < n implies g[x] == h[x] by {
        assert forall|y: int| 0 <= y < n implies g[x][y] == h[x][y] by {
            assert forall|z: int| 0 <= z < n implies g[x][y][z] == h[x][y][z] by {
                assert(in_cube(n, x, y, z));
            }
            assert(g[x][y] =~= h[x][y]);
        }
        assert(g[x] =~= h[x]);
    }
    assert(g =~= h);
}

/// A move makes a cube of the same side, and puts into each cell the piece
/// that [`piece_after`] names.
pub proof fn lemma_turned(g: Grid, m: Move)
    ensures
        cubic(turned(g, m)),
        turned(g, m).len() == g.len(),
        forall|x: int, y: int, z: int|
            in_cube(g.len(), x, y, z) ==> #[trigger] turned(g, m)[x][y][z] == piece_after(
                g,
                m,
                x,
                y,
                z,
            ),
{
}

/// Turning a layer and putting it back is the move on that layer.
pub proof fn lemma_turned_by_layer(g: Grid, m: Move)
    ensures
        with_slice(
            g,
            m.axis(),
            m.layer() as int,
            turned_layer(slice(g, m.axis(), m.layer() as int), m.axis()),
        ) == turned(g, m),
{
    let n = g.len() as int;
    let axis = m.axis();
    let i = m.layer() as int;
    let s = slice(g, axis, i);
    let t = turned_layer(s, axis);
    let a = with_slice(g, axis, i, t);
    let b = turned(g, m);
    assert forall|x: int, y: int, z: int| 0 <= x < n && 0 <= y < n && 0 <= z < n implies a[x][y][z]
        == b[x][y][z] by {
        if layer_of(axis, x, y, z) == i {
            let p = place_of(axis, x, y, z);
            assert(t[p.0][p.1] == s[p.1][n - 1 - p.0].turned(axis));
        }
    }
    assert(a =~~= b);
}

/// Four quarter turns of one layer are a full turn: the same move made four
/// times in a row leaves every piece of the cube as it was.
pub proof fn lemma_four_turns(g: Grid, m: Move)
    requires
        cubic(g),
    ensures
        turned_times(g, m, 4) == g,
{
    let n = g.len();
    let t1 = turned(g, m);
    let t2 = turned(t1, m);
    let t3 = turned(t2, m);
    let t4 = turned(t3, m);
    lemma_turned(g, m);
    lemma_turned(t1, m);
    lemma_turned(t2, m);
    lemma_turned(t3, m);
    assert(turned_times(g, m, 4) == t4) by {
        reveal_with_fuel(turned_times, 5);
    }
    assert forall|x: int, y: int, z: int|
        #![trigger in_cube(n, x, y, z)]
        in_cube(n, x, y, z) implies t4[x][y][z] == g[x][y][z] by {
        match m {
            Move::X(i) => {
                if x == i {
                    assert(in_cube(n, x, z, n - 1 - y));
                    assert(in_cube(n, x, n - 1 - y, n - 1 - z));
                    assert(in_cube(n, x, n - 1 - z, y));
                    assert(t4[x][y][z] == t3[x][z][n - 1 - y].turned_x());
                    assert(t3[x][z][n - 1 - y] == t2[x][n - 1 - y][n - 1 - z].turned_x());
                    assert(t2[x][n - 1 - y][n - 1 - z] == t1[x][n - 1 - z][y].turned_x());
                    assert(t1[x][n - 1 - z][y] == g[x][y][z].turned_x());
                }
            },
            Move::Y(i) => {
                if y == i {
                    assert(in_cube(n, n - 1 - z, y, x));
                    assert(in_cube(n, n - 1 - x, y, n - 1 - z));
                    assert(in_cube(n, z, y, n - 1 - x));
                    assert(t4[x][y][z] == t3[n - 1 - z][y][x].turned_y());
                    assert(t3[n - 1 - z][y][x] == t2[n - 1 - x][y][n - 1 - z].turned_y());
                    assert(t2[n - 1 - x][y][n - 1 - z] == t1[z][y][n - 1 - x].turned_y());
                    assert(t1[z][y][n - 1 - x] == g[x][y][z].turned_y());
                }
            },
            Move::Z(i) => {
                if z == i {
                    assert(in_cube(n, y, n - 1 - x, z));
                    assert(in_cube(n, n - 1 - x, n - 1 - y, z));
                    assert(in_cube(n, n - 1 - y, x, z));
                    assert(t4[x][y][z] == t3[y][n - 1 - x][z].turned_z());
                    assert(t3[y][n - 1 - x][z] == t2[n - 1 - x][n - 1 - y][z].turned_z());
                    assert(t2[n - 1 - x][n - 1 - y][z] == t1[n - 1 - y][x][z].turned_z());
                    assert(t1[n - 1 - y][x][z] == g[x][y][z].turned_z());
                }
            },
        }
    }
    lemma_grids_equal(t4, g);
}

/// Making a move `j` times and then `k` times is making it `j + k` times.
pub proof fn lemma_turned_times_add(g: Grid, m: Move, j: nat, k: nat)
    ensures
        turned_times(g, m, j + k) == turned_times(turned_times(g, m, j), m, k),
    decreases k,
{
    if k > 0 {
        lemma_turned_times_add(g, m, j, (k - 1) as nat);
        assert(turned_times(g, m, j + k) == turned(turned_times(g, m, (j + k - 1) as nat), m));
    }
}

/// Any number of full turns of one layer leaves every piece of the cube as
/// it was: the same move made `4 * k` times in a row changes nothing.
pub proof fn lemma_full_turns(g: Grid, m: Move, k: nat)
    requires
        cubic(g),
    ensures
        turned_times(g, m, 4 * k) == g,
    decreases k,
{
    if k > 0 {
        lemma_full_turns(g, m, (k - 1) as nat);
        lemma_turned_times_add(g, m, (4 * (k - 1)) as nat, 4);
        lemma_four_turns(g, m);
    }
}

/// The same move made eight times in a row, two full turns, changes
/// nothing.
pub proof fn lemma_eight_turns(g: Grid, m: Move)
    requires
        cubic(g),
    ensures
        turned_times(g, m, 8) == g,
{
    lemma_full_turns(g, m, 2);
}

/// Making one move `k` times in a row is making it `k` times.
pub proof fn lemma_turned_all_same(g: Grid, m: Move, k: nat)
    ensures
        turned_all(g, Seq::new(k, |i: int| m)) == turned_times(g, m, k),
    decreases k,
{
    if k > 0 {
        let ms = Seq::new(k, |i: int| m);
        assert(ms.drop_last() =~= Seq::new((k - 1) as nat, |i: int| m));
        lemma_turned_all_same(g, m, (k - 1) as nat);
    }
}

/// A move keeps `Inside` where the solved cube has it. If the pieces of `g`
/// have `Inside` on the faces that look into the cube and on no others,
/// then so have the pieces of `g` after the move: a move carries facelets
/// to facelets.
pub proof fn lemma_turn_keeps_pattern(g: Grid, m: Move)
    requires
        well_formed(g),
    ensures
        well_formed(turned(g, m)),
{
    let n = g.len();
    let t = turned(g, m);
    let c = canonical(n);
    lemma_turned(g, m);
    assert forall|x: int, y: int, z: int| in_cube(n, x, y, z) implies (
    #[trigger] t[x][y][z]).same_faces(c[x][y][z]) by {
        match m {
            Move::X(i) => {
                if x == i {
                    assert(in_cube(n, x, z, n - 1 - y));
                    assert(g[x][z][n - 1 - y].same_faces(c[x][z][n - 1 - y]));
                } else {
                    assert(g[x][y][z].same_faces(c[x][y][z]));
                }
            },
            Move::Y(i) => {
                if y == i {
                    assert(in_cube(n, n - 1 - z, y, x));
                    assert(g[n - 1 - z][y][x].same_faces(c[n - 1 - z][y][x]));
                } else {
                    assert(g[x][y][z].same_faces(c[x][y][z]));
                }
            },
            Move::Z(i) => {
                if z == i {
                    assert(in_cube(n, y, n - 1 - x, z));
                    assert(g[y][n - 1 - x][z].same_faces(c[y][n - 1 - x][z]));
                } else {
                    assert(g[x][y][z].same_faces(c[x][y][z]));
                }
            },
        }
    }
}

/// Moves keep `Inside` where the solved cube has it, however many are made
/// and whichever they are.
pub proof fn lemma_turns_keep_pattern(g: Grid, ms: Seq<Move>)
    requires
        well_formed(g),
    ensures
        well_formed(turned_all(g, ms)),
        turned_all(g, ms).len() == g.len(),
    decreases ms.len(),
{
    if ms.len() > 0 {
        lemma_turns_keep_pattern(g, ms.drop_last());
        lemma_turn_keeps_pattern(turned_all(g, ms.drop_last()), ms.last());
    }
}

/// A cube that is built from six sides of colors, none of them `Inside`, has
/// `Inside` on the faces that look into the cube and on no facelet.
pub proof fn lemma_assembled_well_formed(
    n: nat,
    top: Seq<Seq<Color>>,
    bottom: Seq<Seq<Color>>,
    left: Seq<Seq<Color>>,
    right: Seq<Seq<Color>>,
    front: Seq<Seq<Color>>,
    back: Seq<Seq<Color>>,
)
    requires
        no_inside(top, n),
        no_inside(bottom, n),
        no_inside(left, n),
        no_inside(right, n),
        no_inside(front, n),
        no_inside(back, n),
    ensures
        well_formed(assembled(n, top, bottom, left, right, front, back)),
{
    let g = assembled(n, top, bottom, left, right, front, back);
    let c = canonical(n);
    assert forall|x: int, y: int, z: int| in_cube(n, x, y, z) implies (
    #[trigger] g[x][y][z]).same_faces(c[x][y][z]) by {
        if y == 0 {
            assert(top[x][z] != Color::Inside);
        }
        if y == n - 1 {
            assert(bottom[x][n - 1 - z] != Color::Inside);
        }
        if x == 0 {
            assert(left[z][y] != Color::Inside);
        }
        if x == n - 1 {
            assert(right[z][n - 1 - y] != Color::Inside);
        }
        if z == 0 {
            assert(front[y][x] != Color::Inside);
        }
        if z == n - 1 {
            assert(back[y][n - 1 - x] != Color::Inside);
        }
    }
}

/// The solved cube is a cube, has `Inside` in the right places and a color
/// on every facelet, and is solved.
pub proof fn lemma_canonical_solved(n: nat)
    ensures
        well_formed(canonical(n)),
        colored(canonical(n)),
        is_solved(canonical(n)),
{
}

/// A cube that has `Inside` in the right places has a color on every
/// facelet.
pub proof fn lemma_well_formed_colored(g: Grid)
    requires
        well_formed(g),
    ensures
        colored(g),
{
    let n = g.len() as int;
    let c = canonical(g.len());
    assert forall|u: int, v: int| 0 <= u < n && 0 <= v < n implies (#[trigger] slice(
        g,
        Axis::X,
        0,
    )[u][v]).color(Face::Left) != Color::Inside by {
        assert(g[0][u][v].same_faces(c[0][u][v]));
    }
    assert forall|u: int, v: int| 0 <= u < n && 0 <= v < n implies (#[trigger] slice(
        g,
        Axis::X,
        n - 1,
    )[u][v]).color(Face::Right) != Color::Inside by {
        assert(g[n - 1][u][v].same_faces(c[n - 1][u][v]));
    }
    assert forall|u: int, v: int| 0 <= u < n && 0 <= v < n implies (#[trigger] slice(
        g,
        Axis::Y,
        0,
    )[u][v]).color(Face::Top) != Color::Inside by {
        assert(g[v][0][u].same_faces(c[v][0][u]));
    }
    assert forall|u: int, v: int| 0 <= u < n && 0 <= v < n implies (#[trigger] slice(
        g,
        Axis::Y,
        n - 1,
    )[u][v]).color(Face::Bottom) != Color::Inside by {
        assert(g[v][n - 1][u].same_faces(c[v][n - 1][u]));
    }
    assert forall|u: int, v: int| 0 <= u < n && 0 <= v < n implies (#[trigger] slice(
        g,
        Axis::Z,
        0,
    )[u][v]).color(Face::Front) != Color::Inside by {
        assert(g[u][v][0].same_faces(c[u][v][0]));
    }
    assert forall|u: int, v: int| 0 <= u < n && 0 <= v < n implies (#[trigger] slice(
        g,
        Axis::Z,
        n - 1,
    )[u][v]).color(Face::Back) != Color::Inside by {
        assert(g[u][v][n - 1].same_faces(c[u][v][n - 1]));
    }
}

} // verus!
