//! An N×N×N twisty cube: its state, the quarter turns that act on it, and
//! the question whether it is solved.
//!
//! A [`Cube`] holds one [`Piece`] per cell, and a piece holds a [`Color`]
//! for each of its six faces. A [`Move`] turns one layer of cells by a
//! quarter, clockwise when looking along the axis: the pieces of the layer
//! change places, and each of them is turned with the layer.
//!
//! What the functions do is stated over a mathematical picture of the cube,
//! the [`grid::Grid`]: [`Cube::apply`] makes of a cube what [`grid::turned`]
//! makes of its grid, and [`Cube::solved`] answers [`grid::is_solved`]. The
//! module [`laws`] proves what follows for all cubes and all moves: four
//! quarter turns of a layer change nothing, and no move brings a face that
//! looks into the cube to the outside.

pub mod builder;
pub mod color;
pub mod cube;
pub mod generate;
pub mod grid;
pub mod laws;
pub mod layer;
pub mod moves;
pub mod piece;

pub use crate::builder::{cube, solved};
pub use crate::color::{Color, Face};
pub use crate::cube::Cube;
pub use crate::generate::{arbitrary_move, chosen_move, DataError};
pub use crate::layer::{swap_axes, CubeLayer};
pub use crate::moves::{Axis, Move};
pub use crate::piece::{rotate, Piece};
