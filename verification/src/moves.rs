//! The three axes, and moves: quarter turns of one layer about an axis.

use vstd::prelude::*;

verus! {

/// One of the three axes of the cube. Layers are counted along an axis, and
/// a layer turns about it.
#[derive(Copy, Clone, PartialEq, Eq, Debug, Structural)]
pub enum Axis {
    X,
    Y,
    Z,
}

/// A move is a clockwise quarter turn of the layer with the given index on
/// the given axis. Clockwise means clockwise when looking in the direction
/// of the axis, so a turn of the bottom side of the cube is counterclockwise
/// when you look at it from the bottom.
#[derive(Copy, Clone, Debug, PartialEq, Eq, Structural)]
pub enum Move {
    X(usize),
    Y(usize),
    Z(usize),
}

impl Axis {
    /// The axis with the given number: 0 for x, 1 for y, 2 for z. There is
    /// no axis for a larger number.
    pub fn from_index(index: usize) -> (axis: Option<Axis>)
        ensures
            axis == (if index == 0 {
                Some(Axis::X)
            } else if index == 1 {
                Some(Axis::Y)
            } else if index == 2 {
                Some(Axis::Z)
            } else {
                None
            }),
    {
        if index == 0 {
            Some(Axis::X)
        } else if index == 1 {
            Some(Axis::Y)
        } else if index == 2 {
            Some(Axis::Z)
        } else {
            None
        }
    }
}

impl Move {
    /// The move that turns layer `layer` about `axis`.
    pub fn new(axis: Axis, layer: usize) -> (m: Move)
        ensures
            m.axis() == axis,
            m.layer() == layer,
    {
        match axis {
            Axis::X => Move::X(layer),
            Axis::Y => Move::Y(layer),
            Axis::Z => Move::Z(layer),
        }
    }

    /// The axis about which the move turns a layer.
    #[verifier::allow_in_spec]
    pub fn axis(self) -> Axis
        returns
            (match self {
                Move::X(_) => Axis::X,
                Move::Y(_) => Axis::Y,
                Move::Z(_) => Axis::Z,
            }),
    {
        match self {
            Move::X(_) => Axis::X,
            Move::Y(_) => Axis::Y,
            Move::Z(_) => Axis::Z,
        }
    }

    /// The index of the layer that the move turns.
    #[verifier::allow_in_spec]
    pub fn layer(self) -> usize
        returns
            (match self {
                Move::X(i) => i,
                Move::Y(i) => i,
                Move::Z(i) => i,
            }),
    {
        match self {
            Move::X(i) => i,
            Move::Y(i) => i,
            Move::Z(i) => i,
        }
    }
}

} // verus!
