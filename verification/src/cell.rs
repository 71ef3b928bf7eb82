//! The state of one board tile.

use crate::tetromino::Shape;
use vstd::prelude::*;

verus! {

/// A board tile: free, part of a placed or falling piece, or part of the
/// landing preview.
#[derive(Copy, Clone, Debug, PartialEq, Eq, Structural)]
pub enum Cell {
    Empty,
    Full(Shape),
    Shadow(Shape),
}

impl Default for Cell {
    fn default() -> (c: Cell)
        ensures
            c == Cell::Empty,
    {
        Cell::Empty
    }
}

impl Cell {
    /// The shape carried by a non-empty cell.
    pub open spec fn shape(self) -> Shape
        recommends
            self != Cell::Empty,
    {
        match self {
            Cell::Full(shape) => shape,
            Cell::Shadow(shape) => shape,
            Cell::Empty => Shape::I,
        }
    }

    /// Clears the cell.
    pub fn empty(&mut self)
        ensures
            *final(self) == Cell::Empty,
    {
        *self = Cell::Empty;
    }

    /// Turns a non-empty cell into a preview cell of the same shape.
    pub fn to_ghost(&mut self)
        requires
            *old(self) != Cell::Empty,
        ensures
            *final(self) == Cell::Shadow(old(self).shape()),
    {
        *self = Cell::Shadow(self.unwrap());
    }

    /// Turns a non-empty cell into an occupied cell of the same shape.
    pub fn to_full(&mut self)
        requires
            *old(self) != Cell::Empty,
        ensures
            *final(self) == Cell::Full(old(self).shape()),
    {
        *self = Cell::Full(self.unwrap());
    }

    /// Whether the cell is part of a placed or falling piece.
    pub fn is_full(&self) -> (b: bool)
        ensures
            b == (*self is Full),
    {
        matches!(self, Cell::Full(_))
    }

    /// Whether the cell is part of the landing preview.
    pub fn is_ghost(&self) -> (b: bool)
        ensures
            b == (*self is Shadow),
    {
        matches!(self, Cell::Shadow(_))
    }

    /// Whether the cell is free.
    pub fn is_empty(&self) -> (b: bool)
        ensures
            b == (*self is Empty),
    {
        matches!(self, Cell::Empty)
    }

    /// The shape of a non-empty cell.
    pub fn unwrap(&self) -> (s: Shape)
        requires
            *self != Cell::Empty,
        ensures
            s == self.shape(),
    {
        match self {
            Cell::Full(shape) => *shape,
            Cell::Shadow(shape) => *shape,
            Cell::Empty => Shape::I,
        }
    }
}

} // verus!
