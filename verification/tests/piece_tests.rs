use hacky_rubiks_solver::{rotate, Axis, Color, Face, Move, Piece};

fn sample_piece() -> Piece {
    Piece {
        top: Color::White,
        bottom: Color::Yellow,
        left: Color::Red,
        right: Color::Orange,
        front: Color::Blue,
        back: Color::Green,
    }
}

#[test]
fn rotate_moves_each_value_one_place_on() {
    let (mut a, mut b, mut c, mut d) = (1, 2, 3, 4);
    rotate(&mut a, &mut b, &mut c, &mut d);
    assert_eq!((a, b, c, d), (4, 1, 2, 3));
}

#[test]
fn rotate_four_times_is_identity() {
    let (mut a, mut b, mut c, mut d) = ("a", "b", "c", "d");
    for _ in 0..4 {
        rotate(&mut a, &mut b, &mut c, &mut d);
    }
    assert_eq!((a, b, c, d), ("a", "b", "c", "d"));
}

#[test]
fn piece_rotate_x_cycles_top_front_bottom_back() {
    let mut piece = sample_piece();
    piece.rotate_x();
    assert_eq!(
        piece,
        Piece {
            top: Color::Green,
            front: Color::White,
            bottom: Color::Blue,
            back: Color::Yellow,
            left: Color::Red,
            right: Color::Orange,
        }
    );
}

#[test]
fn piece_rotate_y_cycles_front_left_back_right() {
    let mut piece = sample_piece();
    piece.rotate_y();
    assert_eq!(
        piece,
        Piece {
            left: Color::Blue,
            back: Color::Red,
            right: Color::Green,
            front: Color::Orange,
            top: Color::White,
            bottom: Color::Yellow,
        }
    );
}

#[test]
fn piece_rotate_z_cycles_left_top_right_bottom() {
    let mut piece = sample_piece();
    piece.rotate_z();
    assert_eq!(
        piece,
        Piece {
            top: Color::Red,
            right: Color::White,
            bottom: Color::Orange,
            left: Color::Yellow,
            front: Color::Blue,
            back: Color::Green,
        }
    );
}

#[test]
fn piece_rotate_about_agrees_with_the_named_turns() {
    let mut by_axis = sample_piece();
    let mut by_name = sample_piece();
    by_axis.rotate_about(Axis::X);
    by_name.rotate_x();
    assert_eq!(by_axis, by_name);
    by_axis.rotate_about(Axis::Y);
    by_name.rotate_y();
    assert_eq!(by_axis, by_name);
    by_axis.rotate_about(Axis::Z);
    by_name.rotate_z();
    assert_eq!(by_axis, by_name);
}

#[test]
fn piece_four_quarter_turns_restore_it() {
    for axis in [Axis::X, Axis::Y, Axis::Z] {
        let mut piece = sample_piece();
        for _ in 0..4 {
            piece.rotate_about(axis);
        }
        assert_eq!(piece, sample_piece());
    }
}

#[test]
fn piece_get_reads_each_face() {
    let piece = sample_piece();
    assert_eq!(piece.get(Face::Top), Color::White);
    assert_eq!(piece.get(Face::Bottom), Color::Yellow);
    assert_eq!(piece.get(Face::Left), Color::Red);
    assert_eq!(piece.get(Face::Right), Color::Orange);
    assert_eq!(piece.get(Face::Front), Color::Blue);
    assert_eq!(piece.get(Face::Back), Color::Green);
}

#[test]
fn piece_set_paints_one_face_only() {
    for face in [Face::Top, Face::Bottom, Face::Left, Face::Right, Face::Front, Face::Back] {
        let mut piece = Piece::blank();
        piece.set(face, Color::Red);
        for other in [Face::Top, Face::Bottom, Face::Left, Face::Right, Face::Front, Face::Back] {
            let expected = if other == face { Color::Red } else { Color::Inside };
            assert_eq!(piece.get(other), expected);
        }
    }
}

#[test]
fn blank_piece_is_inside_everywhere() {
    let piece = Piece::blank();
    assert_eq!(
        piece,
        Piece {
            top: Color::Inside,
            bottom: Color::Inside,
            left: Color::Inside,
            right: Color::Inside,
            front: Color::Inside,
            back: Color::Inside,
        }
    );
}

#[test]
fn axis_from_index_knows_three_axes() {
    assert_eq!(Axis::from_index(0), Some(Axis::X));
    assert_eq!(Axis::from_index(1), Some(Axis::Y));
    assert_eq!(Axis::from_index(2), Some(Axis::Z));
    assert_eq!(Axis::from_index(3), None);
    assert_eq!(Axis::from_index(usize::MAX), None);
}

#[test]
fn move_new_pairs_axis_and_layer() {
    assert_eq!(Move::new(Axis::X, 0), Move::X(0));
    assert_eq!(Move::new(Axis::Y, 4), Move::Y(4));
    assert_eq!(Move::new(Axis::Z, 7), Move::Z(7));
}

#[test]
fn move_axis_and_layer_read_it_back() {
    assert_eq!(Move::X(3).axis(), Axis::X);
    assert_eq!(Move::Y(5).axis(), Axis::Y);
    assert_eq!(Move::Z(0).axis(), Axis::Z);
    assert_eq!(Move::X(3).layer(), 3);
    assert_eq!(Move::Y(5).layer(), 5);
    assert_eq!(Move::Z(0).layer(), 0);
}
