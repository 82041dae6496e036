use hacky_rubiks_solver::{cube, Color, Cube, Move};
use proptest::strategy::{BoxedStrategy, Strategy};
use proptest::test_runner::{TestCaseError, TestRunner};

const W: Color = Color::White;
const B: Color = Color::Blue;
const R: Color = Color::Red;
const O: Color = Color::Orange;
const G: Color = Color::Green;
const Y: Color = Color::Yellow;

/// Sequences of moves on a cube with `layers` layers in which no move
/// follows itself but as one of its one to three repetitions.
fn strat(layers: usize, min_size: usize, max_size: usize) -> BoxedStrategy<Vec<Move>> {
    let moves = layers * 3;

    (
        0..moves,
        1..=3u8,
        proptest::collection::vec((0..moves - 1, 1..=3u8), min_size..=max_size),
    )
        .prop_map(move |(inital_move, initial_repeat, remaining)| {
            let push_move = |moves: &mut Vec<Move>, move_idx: usize, repeat: u8| {
                for _ in 0..repeat {
                    moves.push(match move_idx / layers {
                        0 => Move::X(move_idx % layers),
                        1 => Move::Y(move_idx % layers),
                        2 => Move::Z(move_idx % layers),
                        _ => unreachable!(),
                    });
                }
            };

            let mut moves: Vec<Move> = Vec::with_capacity(3 + remaining.len() * 3);

            push_move(&mut moves, inital_move, initial_repeat);

            let mut last_move = inital_move;

            for (move_idx, repeat) in remaining {
                let move_idx = if move_idx >= last_move { move_idx + 1 } else { move_idx };

                push_move(&mut moves, move_idx, repeat);

                last_move = move_idx;
            }

            moves
        })
        .boxed()
}

fn scramble_start() -> Cube<3> {
    cube(
        [[Y, G, Y], [Y, G, Y], [O, R, O]],
        [[R, B, W], [R, B, W], [R, O, W]],
        [[B, B, O], [O, Y, Y], [B, B, W]],
        [[R, G, G], [W, W, W], [Y, G, G]],
        [[R, R, Y], [R, R, Y], [B, B, B]],
        [[W, O, O], [W, O, O], [G, G, G]],
    )
}

#[test]
fn unsolvable() {
    let mut runner = TestRunner::deterministic();
    let outcome = runner.run(&strat(3, 16, 32), |moves| {
        let mut cube = scramble_start();

        for move_ in &moves {
            cube.apply(*move_);
            if cube.solved() {
                return Err(TestCaseError::fail("the cube became solved"));
            }
        }
        Ok(())
    });
    assert!(outcome.is_ok());
}

#[test]
fn generated_moves_stay_in_the_cube() {
    let mut runner = TestRunner::deterministic();
    let outcome = runner.run(&strat(3, 16, 32), |moves| {
        if moves.len() < 17 || moves.len() > 99 {
            return Err(TestCaseError::fail("a sequence of the wrong length"));
        }
        if moves.iter().any(|move_| move_.layer() >= 3) {
            return Err(TestCaseError::fail("a layer that the cube does not have"));
        }
        Ok(())
    });
    assert!(outcome.is_ok());
}
