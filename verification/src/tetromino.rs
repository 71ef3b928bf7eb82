//! Tetrominoes: the seven shapes and their rotation handle.

pub mod data;
pub mod offsets;

use crate::tetromino::data::{masks_of, rotations_of, Flags, MovementFlags, ShapeData};
use crate::direction::Direction;
use crate::tetromino::offsets::Offsets;
use crate::v2::V2;
use vstd::prelude::*;
use vstd::std_specs::cmp::PartialEqSpecImpl;
use vstd::std_specs::convert::FromSpecImpl;

verus! {

/// The seven one-sided tetromino kinds.
#[derive(Copy, Clone, Debug, PartialEq, Eq, Structural)]
pub enum Shape {
    I,
    O,
    T,
    L,
    J,
    S,
    Z,
}

impl Shape {
    /// The number of rotation states of the shape.
    pub open spec fn state_count(self) -> int {
        if self == Shape::O {
            1
        } else {
            4
        }
    }
}

/// A turn by one rotation state.
#[derive(Copy, Clone, Debug, PartialEq, Eq, Structural)]
pub enum Side {
    Left,
    Right,
}

impl Side {
    /// The change of the state index: one back for left, one forward for right.
    pub open spec fn step(self) -> int {
        match self {
            Side::Left => -1,
            Side::Right => 1,
        }
    }
}

/// A shape together with the rotation state it is in.
#[derive(Copy, Clone, Debug)]
pub struct Tetromino {
    pub shape: Shape,
    pub state: i8,
}

impl PartialEq for Tetromino {
    fn eq(&self, other: &Self) -> (same: bool) {
        self.state == other.state
    }
}

impl Eq for Tetromino {

}

impl PartialEqSpecImpl for Tetromino {
    open spec fn obeys_eq_spec() -> bool {
        true
    }

    open spec fn eq_spec(&self, other: &Self) -> bool {
        self.state == other.state
    }
}

impl Tetromino {
    /// The state index lies within the shape's table.
    pub open spec fn wf(self) -> bool {
        0 <= self.state < self.shape.state_count()
    }

    /// The cell offsets of the current state.
    pub open spec fn offsets(self) -> Offsets {
        rotations_of(self.shape)[self.state as int]
    }

    /// The collision masks of the current state, one per cell.
    pub open spec fn masks(self) -> Seq<Flags> {
        Seq::new(4, |i: int| Flags(masks_of(self.shape)[self.state as int][i]))
    }

    /// The handle after one turn: the state index moves by the side's step
    /// and wraps around the number of states.
    pub open spec fn rotated(self, side: Side) -> Tetromino {
        Tetromino {
            shape: self.shape,
            state: ((self.state + side.step()) % self.shape.state_count()) as i8,
        }
    }

    /// The handle after `n` turns to the same side.
    pub open spec fn rotated_times(self, side: Side, n: nat) -> Tetromino
        decreases n,
    {
        if n == 0 {
            self
        } else {
            self.rotated(side).rotated_times(side, (n - 1) as nat)
        }
    }

    /// Turns by one rotation state to the left: one state back, around the
    /// number of states.
    pub fn rotate_left(&mut self)
        requires
            old(self).wf(),
        ensures
            *final(self) == old(self).rotated(Side::Left),
            final(self).wf(),
    {
        self.rotate(Side::Left);
    }

    /// Turns by one rotation state to the right: one state on, around the
    /// number of states.
    pub fn rotate_right(&mut self)
        requires
            old(self).wf(),
        ensures
            *final(self) == old(self).rotated(Side::Right),
            final(self).wf(),
    {
        self.rotate(Side::Right);
    }

    /// The cell offsets of the current rotation state.
    pub fn current_offsets(&self) -> (offsets: Offsets)
        requires
            self.wf(),
        ensures
            offsets == self.offsets(),
    {
        let data = ShapeData::of(self.shape);
        data.rotations[self.state as usize]
    }

    /// For each cell of the current rotation state, the directions in which
    /// it can run into something.
    pub fn current_directions(&self) -> (masks: MovementFlags)
        requires
            self.wf(),
        ensures
            masks@ == self.masks(),
    {
        let data = ShapeData::of(self.shape);
        let masks = data.directions[self.state as usize];
        assert(masks@ =~= self.masks());
        masks
    }

    /// The cells that have to be checked before a move in `direction`: in
    /// rising order, the indices of the cells whose mask holds every
    /// direction of `direction`.
    pub fn indexes_of_cells_colliding(&self, direction: Flags) -> (indexes: Vec<usize>)
        requires
            self.wf(),
        ensures
            forall|k: int| 0 <= k < indexes@.len() ==> 0 <= #[trigger] indexes@[k] < 4,
            forall|j: int, k: int| 0 <= j < k < indexes@.len() ==> indexes@[j] < indexes@[k],
            forall|i: int|
                0 <= i < 4 ==> (indexes@.contains(i as usize) <==> (#[trigger] self.masks()[i]).contains(
                    direction,
                )),
    {
        let cells = self.current_directions().decompress();
        let mut indexes: Vec<usize> = Vec::new();
        let mut index: usize = 0;
        while index < 4
            invariant
                index <= 4,
                cells@ == self.masks(),
                forall|k: int| 0 <= k < indexes@.len() ==> 0 <= #[trigger] indexes@[k] < index,
                forall|j: int, k: int| 0 <= j < k < indexes@.len() ==> indexes@[j] < indexes@[k],
                forall|i: int|
                    0 <= i < index ==> (indexes@.contains(i as usize) <==> (
                    #[trigger] self.masks()[i]).contains(direction)),
            decreases 4 - index,
        {
            let ghost before = indexes@;
            if cells[index].can_collide(direction) {
                indexes.push(index);
                assert(indexes@[before.len() as int] == index);
                assert forall|i: int| 0 <= i < index + 1 implies (indexes@.contains(i as usize) <==> (
                #[trigger] self.masks()[i]).contains(direction)) by {
                    if i < index {
                        if before.contains(i as usize) {
                            let k = choose|k: int| 0 <= k < before.len() && before[k] == i as usize;
                            assert(indexes@[k] == i as usize);
                        }
                        if indexes@.contains(i as usize) {
                            let k = choose|k: int| 0 <= k < indexes@.len() && indexes@[k] == i as usize;
                            assert(before[k] == i as usize);
                        }
                    }
                }
            } else {
                assert forall|i: int| 0 <= i < index + 1 implies (indexes@.contains(i as usize) <==> (
                #[trigger] self.masks()[i]).contains(direction)) by {
                    if i == index && indexes@.contains(i as usize) {
                        let k = choose|k: int| 0 <= k < indexes@.len() && indexes@[k] == i as usize;
                        assert(indexes@[k] < index);
                    }
                }
            }
            index += 1;
        }
        indexes
    }

    fn rotate(&mut self, side: Side)
        requires
            old(self).wf(),
        ensures
            *final(self) == old(self).rotated(side),
            final(self).wf(),
    {
        let count: i8 = ShapeData::of(self.shape).rotations.len() as i8;
        let next: i8 = match side {
            Side::Left => if self.state == 0 {
                count - 1
            } else {
                self.state - 1
            },
            Side::Right => if self.state + 1 == count {
                0
            } else {
                self.state + 1
            },
        };
        assert(next == (self.state + side.step()) % (count as int)) by {
            if count == 1 {
                assert(next == (self.state + side.step()) % 1);
            } else {
                assert(next == (self.state + side.step()) % 4);
            }
        }
        self.state = next;
    }
}

proof fn lemma_single_bit_tests()
    by (bit_vector)
    ensures
        forall|a: u8, b: u8| (1u8 == #[trigger] (1u8 & (a | b))) == ((1u8 == 1u8 & a) || (1u8 == 1u8 & b)),
        forall|a: u8, b: u8| (2u8 == #[trigger] (2u8 & (a | b))) == ((2u8 == 2u8 & a) || (2u8 == 2u8 & b)),
        forall|a: u8, b: u8| (4u8 == #[trigger] (4u8 & (a | b))) == ((4u8 == 4u8 & a) || (4u8 == 4u8 & b)),
        forall|a: u8, b: u8| (8u8 == #[trigger] (8u8 & (a | b))) == ((8u8 == 8u8 & a) || (8u8 == 8u8 & b)),
        (1u8 == 1u8 & 1u8),
        !(1u8 == 1u8 & 2u8),
        !(1u8 == 1u8 & 4u8),
        !(1u8 == 1u8 & 8u8),
        !(1u8 == 1u8 & 6u8),
        (1u8 == 1u8 & 9u8),
        !(2u8 == 2u8 & 1u8),
        (2u8 == 2u8 & 2u8),
        !(2u8 == 2u8 & 4u8),
        !(2u8 == 2u8 & 8u8),
        (2u8 == 2u8 & 6u8),
        !(2u8 == 2u8 & 9u8),
        !(4u8 == 4u8 & 1u8),
        !(4u8 == 4u8 & 2u8),
        (4u8 == 4u8 & 4u8),
        !(4u8 == 4u8 & 8u8),
        (4u8 == 4u8 & 6u8),
        !(4u8 == 4u8 & 9u8),
        !(8u8 == 8u8 & 1u8),
        !(8u8 == 8u8 & 2u8),
        !(8u8 == 8u8 & 4u8),
        (8u8 == 8u8 & 8u8),
        !(8u8 == 8u8 & 6u8),
        (8u8 == 8u8 & 9u8),
{
}

/// Turning left and then right, or right and then left, gives back the
/// handle, and with it the same four offsets.
pub proof fn lemma_rotate_there_and_back(t: Tetromino)
    requires
        t.wf(),
    ensures
        t.offsets().0@.len() == 4,
        t.rotated(Side::Left).wf(),
        t.rotated(Side::Right).wf(),
        t.rotated(Side::Left).rotated(Side::Right) == t,
        t.rotated(Side::Right).rotated(Side::Left) == t,
        t.rotated(Side::Left).rotated(Side::Right).offsets() == t.offsets(),
        t.rotated(Side::Right).rotated(Side::Left).offsets() == t.offsets(),
{
    let n = t.shape.state_count();
    let l = t.rotated(Side::Left);
    let r = t.rotated(Side::Right);
    if n == 1 {
        assert(l.state == (t.state - 1) % 1);
        assert(r.state == (t.state + 1) % 1);
        assert(l.rotated(Side::Right).state == (l.state + 1) % 1);
        assert(r.rotated(Side::Left).state == (r.state - 1) % 1);
    } else {
        assert(n == 4);
        assert(l.state == (t.state - 1) % 4);
        assert(r.state == (t.state + 1) % 4);
        assert(l.rotated(Side::Right).state == (l.state + 1) % 4);
        assert(r.rotated(Side::Left).state == (r.state - 1) % 4);
    }
}

/// As many turns to one side as the shape has rotation states give back the
/// handle.
pub proof fn lemma_full_turn(t: Tetromino, side: Side)
    requires
        t.wf(),
    ensures
        t.rotated_times(side, t.shape.state_count() as nat) == t,
{
    let n = t.shape.state_count();
    let t1 = t.rotated(side);
    if n == 1 {
        assert(t1.state == (t.state + side.step()) % 1);
        assert(t1 == t);
        assert(t1.rotated_times(side, 0) == t1);
    } else {
        assert(n == 4);
        let t2 = t1.rotated(side);
        let t3 = t2.rotated(side);
        let t4 = t3.rotated(side);
        assert(t1.state == (t.state + side.step()) % 4);
        assert(t2.state == (t1.state + side.step()) % 4);
        assert(t3.state == (t2.state + side.step()) % 4);
        assert(t4.state == (t3.state + side.step()) % 4);
        assert(t4 == t);
        assert(t4.rotated_times(side, 0) == t4);
        assert(t3.rotated_times(side, 1) == t4);
        assert(t2.rotated_times(side, 2) == t4);
        assert(t1.rotated_times(side, 3) == t4);
    }
}

/// The mask of a cell holds a direction exactly when the position next to the
/// cell in that direction is not a cell of the same layout: only the cells on
/// the piece's rim in that direction are checked before a move.
#[verifier::rlimit(30)]
pub proof fn lemma_mask_marks_rim(t: Tetromino, i: int, d: Direction)
    requires
        t.wf(),
        0 <= i < 4,
    ensures
        t.masks()[i].contains(Flags(d.bit())) <==> !t.offsets().occupies(
            V2 {
                x: (t.offsets().0[i].x + d.delta().x) as i32,
                y: (t.offsets().0[i].y + d.delta().y) as i32,
            },
        ),
{
    reveal(rotations_of);
    reveal(masks_of);
    lemma_single_bit_tests();
}

/// Below a cell whose mask holds the downward direction there is no cell of
/// the same layout, however far down: no layout has a gap in a column.
pub proof fn lemma_nothing_below_rim(t: Tetromino, i: int, j: int, m: int)
    requires
        t.wf(),
        0 <= i < 4,
        0 <= j < 4,
        m >= 1,
        t.masks()[i].contains(Flags(crate::tetromino::data::DOWN)),
    ensures
        !(t.offsets().0[j].x == t.offsets().0[i].x && t.offsets().0[j].y == t.offsets().0[i].y + m),
{
    reveal(rotations_of);
    reveal(masks_of);
    lemma_single_bit_tests();
}

/// Every offset of a layout lies between one cell before the anchor and two
/// cells after it, and in each axis some cell lies at the anchor's coordinate
/// or one after it.
pub proof fn lemma_layout_extent(t: Tetromino)
    requires
        t.wf(),
    ensures
        forall|i: int|
            0 <= i < 4 ==> -1 <= (#[trigger] t.offsets().0[i]).x <= 2 && -1 <= t.offsets().0[i].y
                <= 2,
        0 <= t.offsets().0[0].x <= 1 || 0 <= t.offsets().0[1].x <= 1 || 0 <= t.offsets().0[2].x <= 1
            || 0 <= t.offsets().0[3].x <= 1,
        0 <= t.offsets().0[0].y <= 1 || 0 <= t.offsets().0[1].y <= 1 || 0 <= t.offsets().0[2].y <= 1
            || 0 <= t.offsets().0[3].y <= 1,
{
    reveal(rotations_of);
}

/// The push that a coordinate outside `0..limit` asks for.
pub open spec fn push_back(limit: int, c: int) -> int {
    if c < 0 {
        1
    } else if c >= limit {
        -1
    } else {
        0
    }
}

/// On a board at least five cells wide and four high, a layout that lies on
/// the board still does so after a turn about its anchor and one push by
/// the sum of what its cells outside the board ask for.
#[verifier::rlimit(30)]
pub proof fn lemma_turn_fits(t: Tetromino, side: Side, pos: V2, width: int, height: int)
    requires
        t.wf(),
        t.shape != Shape::O,
        5 <= width,
        4 <= height,
        forall|i: int|
            0 <= i < 4 ==> 0 <= pos.x + (#[trigger] t.offsets().0[i]).x < width && 0 <= pos.y
                + t.offsets().0[i].y < height,
    ensures
        ({
            let o = t.rotated(side).offsets().0;
            let kx = push_back(width, pos.x + o[0].x) + push_back(width, pos.x + o[1].x) + push_back(
                width,
                pos.x + o[2].x,
            ) + push_back(width, pos.x + o[3].x);
            let ky = push_back(height, pos.y + o[0].y) + push_back(height, pos.y + o[1].y)
                + push_back(height, pos.y + o[2].y) + push_back(height, pos.y + o[3].y);
            forall|i: int|
                0 <= i < 4 ==> 0 <= pos.x + (#[trigger] o[i]).x + kx < width && 0 <= pos.y + o[i].y + ky
                    < height
        }),
{
    reveal(rotations_of);
    let o = t.offsets().0;
    assert(0 <= pos.x + o[0].x < width && 0 <= pos.y + o[0].y < height);
    assert(0 <= pos.x + o[1].x < width && 0 <= pos.y + o[1].y < height);
    assert(0 <= pos.x + o[2].x < width && 0 <= pos.y + o[2].y < height);
    assert(0 <= pos.x + o[3].x < width && 0 <= pos.y + o[3].y < height);
    let r = t.rotated(side);
    assert(r.state == (t.state + side.step()) % 4);
}

/// The cells of every layout are listed from the top down.
pub proof fn lemma_layout_top_down(t: Tetromino)
    requires
        t.wf(),
    ensures
        t.offsets().0[0].y <= t.offsets().0[1].y <= t.offsets().0[2].y <= t.offsets().0[3].y,
{
    reveal(rotations_of);
}

/// In its first rotation state every shape reaches from one cell left of the
/// anchor to at most two cells right of it, and from the anchor's row to the
/// row below.
pub proof fn lemma_first_layout_extent(shape: Shape)
    ensures
        forall|i: int|
            0 <= i < 4 ==> {
                let offset = #[trigger] (Tetromino { shape, state: 0 }).offsets().0[i];
                -1 <= offset.x <= 2 && 0 <= offset.y <= 1
            },
{
    reveal(rotations_of);
}

impl From<Shape> for Tetromino {
    fn from(shape: Shape) -> (t: Tetromino) {
        Tetromino { shape, state: 0 }
    }
}

impl FromSpecImpl<Shape> for Tetromino {
    open spec fn obeys_from_spec() -> bool {
        true
    }

    open spec fn from_spec(shape: Shape) -> Tetromino {
        Tetromino { shape, state: 0 }
    }
}

} // verus!
