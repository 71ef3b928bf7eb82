//! A tetromino placed on the board.

use crate::cell::Cell;
use crate::tetromino::offsets::Offsets;
use crate::tetromino::{Shape, Side, Tetromino};
use crate::v2::V2;
use vstd::prelude::*;

verus! {

/// A piece in play: its anchor, the four cells it covers, its rotation
/// handle, and the kind of cell it is drawn with.
#[derive(Clone, Copy, Debug, PartialEq, Eq)]
pub struct Piece {
    pub pos: V2,
    pub points: [V2; 4],
    pub data: Tetromino,
    pub cell_value: Cell,
}

/// Whether each of the four offsets can be added to `pos`.
pub open spec fn can_place(pos: V2, offsets: Offsets) -> bool {
    &&& pos.can_add(offsets.0[0])
    &&& pos.can_add(offsets.0[1])
    &&& pos.can_add(offsets.0[2])
    &&& pos.can_add(offsets.0[3])
}

/// The four cells of a layout anchored at `pos`.
pub open spec fn place(pos: V2, offsets: Offsets) -> [V2; 4] {
    [
        pos.plus(offsets.0[0]),
        pos.plus(offsets.0[1]),
        pos.plus(offsets.0[2]),
        pos.plus(offsets.0[3]),
    ]
}

impl Default for Piece {
    fn default() -> (p: Piece)
        ensures
            p == (Piece {
                pos: V2 { x: 0, y: 0 },
                points: [V2 { x: 0, y: 0 }, V2 { x: 0, y: 0 }, V2 { x: 0, y: 0 }, V2 { x: 0, y: 0 }],
                data: Tetromino { shape: Shape::I, state: 0 },
                cell_value: Cell::Shadow(Shape::I),
            }),
    {
        Piece {
            pos: V2::new(0, 0),
            points: [V2::new(0, 0), V2::new(0, 0), V2::new(0, 0), V2::new(0, 0)],
            data: Tetromino::from(Shape::I),
            cell_value: Cell::Shadow(Shape::I),
        }
    }
}

impl Piece {
    /// The piece is of one shape throughout, its rotation state exists, and
    /// its cells lie where the anchor and the state's offsets put them.
    pub open spec fn wf(self) -> bool {
        &&& self.data.wf()
        &&& self.cell_value != Cell::Empty
        &&& self.cell_value.shape() == self.data.shape
        &&& can_place(self.pos, self.data.offsets())
        &&& self.points == place(self.pos, self.data.offsets())
    }

    /// A piece of the cell's shape in its first rotation state, anchored at `pos`.
    pub open spec fn fresh(pos: V2, cell_value: Cell) -> Piece {
        let data = Tetromino { shape: cell_value.shape(), state: 0 };
        Piece { pos, points: place(pos, data.offsets()), data, cell_value }
    }

    /// Whether the anchor and every cell can be moved by `v`.
    pub open spec fn can_translate(self, v: V2) -> bool {
        &&& self.pos.can_add(v)
        &&& self.points[0].can_add(v)
        &&& self.points[1].can_add(v)
        &&& self.points[2].can_add(v)
        &&& self.points[3].can_add(v)
    }

    /// The piece with its anchor and every cell moved by `v`.
    pub open spec fn translated_by(self, v: V2) -> Piece {
        Piece {
            pos: self.pos.plus(v),
            points: [
                self.points[0].plus(v),
                self.points[1].plus(v),
                self.points[2].plus(v),
                self.points[3].plus(v),
            ],
            data: self.data,
            cell_value: self.cell_value,
        }
    }

    /// The piece turned by one rotation state about its anchor.
    pub open spec fn turned(self, side: Side) -> Piece {
        let data = self.data.rotated(side);
        Piece { pos: self.pos, points: place(self.pos, data.offsets()), data, cell_value: self.cell_value }
    }

    /// The same piece drawn with another kind of cell.
    pub open spec fn with_cell(self, cell_value: Cell) -> Piece {
        Piece { pos: self.pos, points: self.points, data: self.data, cell_value }
    }

    /// A piece of the cell's shape in its first rotation state, anchored at `pos`.
    pub fn new(pos: V2, cell_value: Cell) -> (piece: Piece)
        requires
            cell_value != Cell::Empty,
            can_place(pos, Tetromino { shape: cell_value.shape(), state: 0 }.offsets()),
        ensures
            piece == Piece::fresh(pos, cell_value),
            piece.wf(),
    {
        let data = Tetromino::from(cell_value.unwrap());
        let offsets = data.current_offsets();
        Piece {
            pos,
            points: [
                pos + offsets.0[0],
                pos + offsets.0[1],
                pos + offsets.0[2],
                pos + offsets.0[3],
            ],
            data,
            cell_value,
        }
    }

    /// A copy drawn as a landing preview.
    pub fn clone_as_ghost(&self) -> (copy: Piece)
        requires
            self.cell_value != Cell::Empty,
        ensures
            copy == self.with_cell(Cell::Shadow(self.cell_value.shape())),
    {
        let mut copy = self.clone();
        copy.cell_value.to_ghost();
        copy
    }

    /// A copy drawn as occupied cells.
    pub fn clone_as_full(&self) -> (copy: Piece)
        requires
            self.cell_value != Cell::Empty,
        ensures
            copy == self.with_cell(Cell::Full(self.cell_value.shape())),
    {
        let mut copy = self.clone();
        copy.cell_value.to_full();
        copy
    }

    /// Moves the anchor and every cell by `v`.
    pub fn translate(&mut self, v: V2)
        requires
            old(self).can_translate(v),
        ensures
            *final(self) == old(self).translated_by(v),
    {
        self.pos = self.pos + v;
        self.points = [
            self.points[0] + v,
            self.points[1] + v,
            self.points[2] + v,
            self.points[3] + v,
        ];
    }

    /// A copy moved by `v`.
    pub fn translated(&self, v: V2) -> (copy: Piece)
        requires
            self.can_translate(v),
        ensures
            copy == self.translated_by(v),
    {
        let mut copy = self.clone();
        copy.translate(v);
        copy
    }

    fn rotated(&self, is_left: bool) -> (copy: Piece)
        requires
            self.data.wf(),
            can_place(self.pos, self.data.rotated(if is_left { Side::Left } else { Side::Right }).offsets()),
        ensures
            copy == self.turned(if is_left { Side::Left } else { Side::Right }),
    {
        let mut data = self.data.clone();
        if is_left {
            data.rotate_left();
        } else {
            data.rotate_right();
        }
        let pos = self.pos;
        let offsets = data.current_offsets();
        Piece {
            pos,
            points: [
                pos + offsets.0[0],
                pos + offsets.0[1],
                pos + offsets.0[2],
                pos + offsets.0[3],
            ],
            data,
            cell_value: self.cell_value,
        }
    }

    /// A copy turned one state to the left about the anchor.
    pub fn rotated_left(&self) -> (copy: Piece)
        requires
            self.data.wf(),
            can_place(self.pos, self.data.rotated(Side::Left).offsets()),
        ensures
            copy == self.turned(Side::Left),
    {
        self.rotated(true)
    }

    /// A copy turned one state to the right about the anchor.
    pub fn rotated_right(&self) -> (copy: Piece)
        requires
            self.data.wf(),
            can_place(self.pos, self.data.rotated(Side::Right).offsets()),
        ensures
            copy == self.turned(Side::Right),
    {
        self.rotated(false)
    }
}

/// A well-formed piece stays well-formed when it is moved.
pub proof fn lemma_translated_wf(piece: Piece, v: V2)
    requires
        piece.wf(),
        piece.can_translate(v),
    ensures
        piece.translated_by(v).wf(),
{
}

/// A well-formed piece stays well-formed when it is turned, if its anchor
/// leaves room for the new layout.
pub proof fn lemma_turned_wf(piece: Piece, side: Side)
    requires
        piece.wf(),
        can_place(piece.pos, piece.data.rotated(side).offsets()),
    ensures
        piece.turned(side).wf(),
{
    crate::tetromino::lemma_rotate_there_and_back(piece.data);
}

} // verus!
