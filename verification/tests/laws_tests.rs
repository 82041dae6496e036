use hacky_rubiks_solver::{cube, solved, Axis, Color, Cube, Move};

const W: Color = Color::White;
const B: Color = Color::Blue;
const R: Color = Color::Red;
const O: Color = Color::Orange;
const G: Color = Color::Green;
const Y: Color = Color::Yellow;
const I: Color = Color::Inside;

fn mixed() -> Cube<3> {
    cube(
        [[O, O, W], [W, O, W], [G, R, B]],
        [[G, R, R], [B, R, G], [O, Y, Y]],
        [[W, Y, B], [W, B, Y], [R, B, W]],
        [[O, O, R], [O, G, B], [G, G, W]],
        [[B, R, Y], [B, Y, G], [Y, Y, B]],
        [[R, G, G], [R, W, O], [Y, W, O]],
    )
}

fn unsolvable() -> Cube<3> {
    cube(
        [[Y, G, Y], [Y, G, Y], [O, R, O]],
        [[R, B, W], [R, B, W], [R, O, W]],
        [[B, B, O], [O, Y, Y], [B, B, W]],
        [[R, G, G], [W, W, W], [Y, G, G]],
        [[R, R, Y], [R, R, Y], [B, B, B]],
        [[W, O, O], [W, O, O], [G, G, G]],
    )
}

/// A move from a number: the layer is the number modulo `layers`, the axis
/// what is left of it modulo three.
fn numbered_move(number: usize, layers: usize) -> Move {
    let axis = match Axis::from_index((number / layers) % 3) {
        Some(axis) => axis,
        None => unreachable!(),
    };
    Move::new(axis, number % layers)
}

/// The next state of a small linear congruential generator.
fn next_random(state: u64) -> u64 {
    state.wrapping_mul(6364136223846793005).wrapping_add(1442695040888963407)
}

/// Whether the cube has `Inside` exactly on the faces that look into it.
fn has_home_pattern<const LAYERS: usize>(cube: &Cube<LAYERS>) -> bool {
    let last = LAYERS - 1;
    for x in 0..LAYERS {
        for y in 0..LAYERS {
            for z in 0..LAYERS {
                let piece = cube.content[x][y][z];
                let fits = (piece.top != I) == (y == 0)
                    && (piece.bottom != I) == (y == last)
                    && (piece.left != I) == (x == 0)
                    && (piece.right != I) == (x == last)
                    && (piece.front != I) == (z == 0)
                    && (piece.back != I) == (z == last);
                if !fits {
                    return false;
                }
            }
        }
    }
    true
}

#[test]
fn four_turns_of_any_layer_restore_the_cube() {
    let start = mixed();
    for number in 0..9 {
        let move_ = numbered_move(number, 3);
        let mut cube = mixed();
        for turn in 0..4 {
            cube.apply(move_);
            if turn < 3 {
                assert_ne!(cube, start);
            }
        }
        assert_eq!(cube, start);
    }
}

#[test]
fn four_turns_restore_cubes_of_other_sides() {
    let mut one = solved::<1>();
    let mut two = solved::<2>();
    let mut five = solved::<5>();
    for number in 0..15 {
        for _ in 0..4 {
            one.apply(numbered_move(number, 1));
            two.apply(numbered_move(number, 2));
            five.apply(numbered_move(number, 5));
        }
        assert_eq!(one, solved::<1>());
        assert_eq!(two, solved::<2>());
        assert_eq!(five, solved::<5>());
    }
}

#[test]
fn four_turns_restore_a_cube_in_the_middle_of_a_scramble() {
    let mut cube = mixed();
    cube.apply_all(&[Move::Z(2), Move::X(1), Move::Y(0), Move::Y(0), Move::X(2)]);
    let start = Cube { content: cube.content };
    for number in 0..9 {
        cube.apply_all(&[numbered_move(number, 3); 4]);
        assert_eq!(cube, start);
    }
}

#[test]
fn eight_turns_of_a_layer_change_nothing() {
    for layer in 0..3 {
        let mut cube = mixed();
        for _ in 0..8 {
            cube.apply(Move::X(layer));
        }
        assert_eq!(cube, mixed());
    }
    let mut cube = mixed();
    cube.apply_all(&[Move::Y(1); 8]);
    assert_eq!(cube, mixed());
    cube.apply_all(&[Move::Z(0); 8]);
    assert_eq!(cube, mixed());
}

#[test]
fn two_turns_are_not_a_full_turn() {
    let mut cube = mixed();
    cube.apply_all(&[Move::X(0); 2]);
    assert_ne!(cube, mixed());
    cube.apply_all(&[Move::X(0); 2]);
    assert_eq!(cube, mixed());
}

#[test]
fn inside_stays_inside_under_a_long_scramble() {
    let mut state = 2024;
    let mut cube = solved::<4>();
    assert!(has_home_pattern(&cube));
    for _ in 0..2000 {
        state = next_random(state);
        cube.apply(numbered_move((state >> 33) as usize, 4));
        assert!(has_home_pattern(&cube));
        assert!(cube.is_colored());
    }
}

#[test]
fn inside_stays_inside_for_each_move_on_small_cubes() {
    for number in 0..3 {
        let mut cube = solved::<1>();
        cube.apply(numbered_move(number, 1));
        assert!(has_home_pattern(&cube));
    }
    for number in 0..6 {
        let mut cube = solved::<2>();
        cube.apply(numbered_move(number, 2));
        assert!(has_home_pattern(&cube));
    }
    for number in 0..9 {
        let mut cube = mixed();
        cube.apply(numbered_move(number, 3));
        assert!(has_home_pattern(&cube));
    }
}

#[test]
fn a_built_cube_has_inside_where_the_solved_one_has() {
    assert!(has_home_pattern(&mixed()));
    assert!(has_home_pattern(&unsolvable()));
    assert!(has_home_pattern(&solved::<6>()));
}

#[test]
fn a_scrambled_solved_cube_comes_back_by_undoing_the_moves() {
    let moves = [Move::X(0), Move::Z(2), Move::Y(1), Move::X(2), Move::Z(0), Move::Y(2)];
    let mut cube = solved::<3>();
    cube.apply_all(&moves);
    assert!(!cube.solved());
    // Three quarter turns undo one.
    for move_ in moves.iter().rev() {
        cube.apply_all(&[*move_; 3]);
    }
    assert!(cube.solved());
    assert_eq!(cube, solved::<3>());
}

#[test]
fn the_unsolvable_cube_is_never_solved() {
    let mut state = 7;
    let mut cube = unsolvable();
    assert!(!cube.solved());
    for _ in 0..20000 {
        state = next_random(state);
        cube.apply(numbered_move((state >> 33) as usize, 3));
        assert!(!cube.solved());
    }
}

#[test]
fn the_mixed_cube_is_never_solved() {
    let mut state = 99;
    let mut cube = mixed();
    assert!(!cube.solved());
    for _ in 0..20000 {
        state = next_random(state);
        cube.apply(numbered_move((state >> 33) as usize, 3));
        assert!(!cube.solved());
    }
}
