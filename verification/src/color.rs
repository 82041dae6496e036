//! Colors, and the six faces on which they sit.

use vstd::prelude::*;

verus! {

/// The color of a facelet, or `Inside` for a face of a piece that is no
/// facelet because it looks into the cube.
#[derive(Copy, Clone, PartialEq, Eq, Debug, Structural)]
pub enum Color {
    White,
    Blue,
    Red,
    Orange,
    Green,
    Yellow,
    Inside,
}

/// One of the six directions in which a piece, or the whole cube, has a
/// face.
#[derive(Copy, Clone, PartialEq, Eq, Debug, Structural)]
pub enum Face {
    Top,
    Bottom,
    Left,
    Right,
    Front,
    Back,
}

} // verus!
