use hacky_rubiks_solver::{cube, solved, Color, CubeLayer, Move};

const W: Color = Color::White;
const B: Color = Color::Blue;
const R: Color = Color::Red;
const O: Color = Color::Orange;
const G: Color = Color::Green;
const Y: Color = Color::Yellow;

#[test]
fn solved_is_solved() {
    let mut solved = solved::<16>();
    assert!(solved.solved());
}

#[test]
fn one_move_x() {
    let mut cube = cube(
        [[B, B], [W, W]],
        [[G, G], [Y, Y]],
        [[R, R], [R, R]],
        [[O, O], [O, O]],
        [[Y, B], [Y, B]],
        [[G, W], [G, W]],
    );

    cube.apply(Move::X(0));

    assert!(cube.solved());
}

#[test]
fn one_move_y() {
    let mut cube = cube(
        [[W, W], [W, W]],
        [[Y, Y], [Y, Y]],
        [[B, O], [B, O]],
        [[R, G], [R, G]],
        [[O, O], [G, G]],
        [[R, R], [B, B]],
    );

    println!("{:?}", &cube);
    println!("{:?}", cube.y_layer(0));

    cube.apply(Move::Y(0));

    println!("{:?}", &cube);

    assert!(cube.solved());
}

#[test]
fn test_layer_rotation() {
    // This is supposed to be:
    //
    // 00 01 02 03 04 05 06
    // 07 08 09 10 11 12 13
    // 14 15 16 17 18 19 20
    // 21 22 23 24 25 26 27
    // 28 29 30 31 32 33 34
    // 35 36 37 38 39 40 41
    // 42 43 44 45 46 47 48
    //
    // The outer array is the x axis and the inner one y, so that a cell is
    // found by [x][y]; that makes the array literal look transposed.
    let mut layer = [
        [00, 07, 14, 21, 28, 35, 42],
        [01, 08, 15, 22, 29, 36, 43],
        [02, 09, 16, 23, 30, 37, 44],
        [03, 10, 17, 24, 31, 38, 45],
        [04, 11, 18, 25, 32, 39, 46],
        [05, 12, 19, 26, 33, 40, 47],
        [06, 13, 20, 27, 34, 41, 48],
    ];

    {
        let mut cells: CubeLayer<u32, 7> = CubeLayer(layer);
        cells.rotate();
        layer = cells.0;
    }

    assert_eq!(
        layer,
        [
            [42, 43, 44, 45, 46, 47, 48],
            [35, 36, 37, 38, 39, 40, 41],
            [28, 29, 30, 31, 32, 33, 34],
            [21, 22, 23, 24, 25, 26, 27],
            [14, 15, 16, 17, 18, 19, 20],
            [07, 08, 09, 10, 11, 12, 13],
            [00, 01, 02, 03, 04, 05, 06],
        ]
    );
}
