//! The piece that sits in one cell of the cube, and how it turns.

use crate::color::{Color, Face};
use crate::moves::Axis;
use vstd::prelude::*;

verus! {

/// One piece of the cube: a color for each of its six faces.
#[derive(Copy, Clone, Debug, PartialEq, Eq, Structural)]
pub struct Piece {
    pub top: Color,
    pub bottom: Color,
    pub left: Color,
    pub right: Color,
    pub front: Color,
    pub back: Color,
}

/// Moves four values one place along the cycle a → b → c → d → a, by three
/// swaps.
pub fn rotate<T>(a: &mut T, b: &mut T, c: &mut T, d: &mut T)
    ensures
        *final(a) == *old(d),
        *final(b) == *old(a),
        *final(c) == *old(b),
        *final(d) == *old(c),
{
    std::mem::swap(a, b);
    std::mem::swap(c, d);
    std::mem::swap(a, c);
}

impl Piece {
    /// The piece whose six faces all look into the cube.
    pub open spec fn hidden() -> Piece {
        Piece {
            top: Color::Inside,
            bottom: Color::Inside,
            left: Color::Inside,
            right: Color::Inside,
            front: Color::Inside,
            back: Color::Inside,
        }
    }

    /// The color on the given face.
    pub open spec fn color(self, face: Face) -> Color {
        match face {
            Face::Top => self.top,
            Face::Bottom => self.bottom,
            Face::Left => self.left,
            Face::Right => self.right,
            Face::Front => self.front,
            Face::Back => self.back,
        }
    }

    /// This piece with the color on `face` replaced by `color`.
    pub open spec fn with_color(self, face: Face, color: Color) -> Piece {
        match face {
            Face::Top => Piece { top: color, ..self },
            Face::Bottom => Piece { bottom: color, ..self },
            Face::Left => Piece { left: color, ..self },
            Face::Right => Piece { right: color, ..self },
            Face::Front => Piece { front: color, ..self },
            Face::Back => Piece { back: color, ..self },
        }
    }

    /// Whether this piece and `other` have `Inside` on the same faces.
    pub open spec fn same_faces(self, other: Piece) -> bool {
        &&& self.top == Color::Inside <==> other.top == Color::Inside
        &&& self.bottom == Color::Inside <==> other.bottom == Color::Inside
        &&& self.left == Color::Inside <==> other.left == Color::Inside
        &&& self.right == Color::Inside <==> other.right == Color::Inside
        &&& self.front == Color::Inside <==> other.front == Color::Inside
        &&& self.back == Color::Inside <==> other.back == Color::Inside
    }

    /// This piece after a quarter turn about the x axis: top goes to front,
    /// front to bottom, bottom to back and back to top.
    pub open spec fn turned_x(self) -> Piece {
        Piece { front: self.top, bottom: self.front, back: self.bottom, top: self.back, ..self }
    }

    /// This piece after a quarter turn about the y axis: front goes to left,
    /// left to back, back to right and right to front.
    pub open spec fn turned_y(self) -> Piece {
        Piece { left: self.front, back: self.left, right: self.back, front: self.right, ..self }
    }

    /// This piece after a quarter turn about the z axis: left goes to top,
    /// top to right, right to bottom and bottom to left.
    pub open spec fn turned_z(self) -> Piece {
        Piece { top: self.left, right: self.top, bottom: self.right, left: self.bottom, ..self }
    }

    /// This piece after a quarter turn about `axis`.
    pub open spec fn turned(self, axis: Axis) -> Piece {
        match axis {
            Axis::X => self.turned_x(),
            Axis::Y => self.turned_y(),
            Axis::Z => self.turned_z(),
        }
    }

    /// A piece whose six faces all look into the cube.
    pub fn blank() -> (piece: Piece)
        ensures
            piece == Piece::hidden(),
    {
        Piece {
            top: Color::Inside,
            bottom: Color::Inside,
            left: Color::Inside,
            right: Color::Inside,
            front: Color::Inside,
            back: Color::Inside,
        }
    }

    /// Reads the color on `face`.
    pub fn get(&self, face: Face) -> (color: Color)
        ensures
            color == self.color(face),
    {
        match face {
            Face::Top => self.top,
            Face::Bottom => self.bottom,
            Face::Left => self.left,
            Face::Right => self.right,
            Face::Front => self.front,
            Face::Back => self.back,
        }
    }

    /// Paints `face` with `color` and leaves the five other faces alone.
    pub fn set(&mut self, face: Face, color: Color)
        ensures
            *final(self) == old(self).with_color(face, color),
    {
        match face {
            Face::Top => self.top = color,
            Face::Bottom => self.bottom = color,
            Face::Left => self.left = color,
            Face::Right => self.right = color,
            Face::Front => self.front = color,
            Face::Back => self.back = color,
        }
    }

    /// Turns the piece by a quarter about `axis`.
    pub fn rotate_about(&mut self, axis: Axis)
        ensures
            *final(self) == old(self).turned(axis),
    {
        match axis {
            Axis::X => self.rotate_x(),
            Axis::Y => self.rotate_y(),
            Axis::Z => self.rotate_z(),
        }
    }

    /// Turns the piece by a quarter about the x axis.
    pub fn rotate_x(&mut self)
        ensures
            *final(self) == old(self).turned_x(),
    {
        rotate(&mut self.top, &mut self.front, &mut self.bottom, &mut self.back);
    }

    /// Turns the piece by a quarter about the y axis.
    pub fn rotate_y(&mut self)
        ensures
            *final(self) == old(self).turned_y(),
    {
        rotate(&mut self.front, &mut self.left, &mut self.back, &mut self.right);
    }

    /// Turns the piece by a quarter about the z axis.
    pub fn rotate_z(&mut self)
        ensures
            *final(self) == old(self).turned_z(),
    {
        rotate(&mut self.left, &mut self.top, &mut self.right, &mut self.bottom);
    }
}

} // verus!
