//! The rotation tables of the seven shapes and the per-cell collision masks.

use crate::direction::Direction;
use crate::tetromino::offsets::Offsets;
use crate::tetromino::Shape;
use crate::v2::V2;
use vstd::prelude::*;
use vstd::std_specs::convert::FromSpecImpl;
use vstd::std_specs::ops::BitOrSpecImpl;

verus! {

/// No direction.
pub const UNMOVING: u8 = 0;

/// The bit for a step down.
pub const DOWN: u8 = 1;

/// The bit for a step to the left.
pub const LEFT: u8 = 2;

/// The bit for a step to the right.
pub const RIGHT: u8 = 4;

/// The bit for a step up.
pub const UP: u8 = 8;

/// Left and right.
pub const HORIZONTAL: u8 = 6;

/// Up and down.
pub const VERTICAL: u8 = 9;

/// All four directions.
pub const ALL: u8 = 0x0F;

/// A set of directions, one bit each.
#[derive(Copy, Clone, Debug)]
pub struct Flags(pub u8);

impl Flags {
    /// Whether every direction of `f` is also in `self`.
    pub open spec fn contains(self, f: Flags) -> bool {
        f.0 == f.0 & self.0
    }

    /// Whether a cell with this mask has to be checked before a move in all
    /// the directions of `f`.
    pub fn can_collide(&self, f: Flags) -> (b: bool)
        ensures
            b == self.contains(f),
    {
        f.0 == f.0 & self.0
    }
}

impl core::ops::BitOr for Flags {
    type Output = Flags;

    fn bitor(self, rhs: Flags) -> (both: Flags) {
        Flags(self.0 | rhs.0)
    }
}

impl BitOrSpecImpl for Flags {
    open spec fn obeys_bitor_spec() -> bool {
        true
    }

    open spec fn bitor_req(self, rhs: Flags) -> bool {
        true
    }

    open spec fn bitor_spec(self, rhs: Flags) -> Flags {
        Flags(self.0 | rhs.0)
    }
}

impl Direction {
    /// The mask bit that stands for this direction.
    pub open spec fn bit(self) -> u8 {
        match self {
            Direction::Up => UP,
            Direction::Down => DOWN,
            Direction::Left => LEFT,
            Direction::Right => RIGHT,
        }
    }
}

impl From<Direction> for Flags {
    fn from(d: Direction) -> (f: Flags) {
        match d {
            Direction::Up => Flags(UP),
            Direction::Down => Flags(DOWN),
            Direction::Left => Flags(LEFT),
            Direction::Right => Flags(RIGHT),
        }
    }
}

impl FromSpecImpl<Direction> for Flags {
    open spec fn obeys_from_spec() -> bool {
        true
    }

    open spec fn from_spec(d: Direction) -> Flags {
        Flags(d.bit())
    }
}

/// The low four bits of `flags` after dropping `index` groups of four bits.
pub open spec fn nibble(flags: u16, index: int) -> u8 {
    ((flags >> ((4 * index) as u16)) & 0x0F) as u8
}

proof fn lemma_pack_unpack(a: u16, b: u16, c: u16, d: u16)
    by (bit_vector)
    requires
        a < 16,
        b < 16,
        c < 16,
        d < 16,
    ensures
        ((a | (b << 4) | (c << 8) | (d << 12)) >> 0) & 0x0F == a,
        ((a | (b << 4) | (c << 8) | (d << 12)) >> 4) & 0x0F == b,
        ((a | (b << 4) | (c << 8) | (d << 12)) >> 8) & 0x0F == c,
        ((a | (b << 4) | (c << 8) | (d << 12)) >> 12) & 0x0F == d,
{
}

proof fn lemma_low_nibble(x: u8)
    by (bit_vector)
    ensures
        x & 0x0F < 16,
        x < 16 ==> x & 0x0F == x,
{
}

proof fn lemma_nibble_small(flags: u16, shift: u16)
    by (bit_vector)
    ensures
        (flags >> shift) & 0x0F < 16,
{
}

/// The collision masks of the four cells of one rotation state, four bits
/// per cell packed into sixteen.
#[derive(Copy, Clone, Debug)]
pub struct MovementFlags {
    flags: u16,
}

impl View for MovementFlags {
    type V = Seq<Flags>;

    closed spec fn view(&self) -> Seq<Flags> {
        Seq::new(4, |i: int| Flags(nibble(self.flags, i)))
    }
}

impl MovementFlags {
    /// Packs the low four bits of each of the four masks.
    pub fn new(four_flags: &[u8; 4]) -> (packed: Self)
        ensures
            packed@.len() == 4,
            forall|i: int| 0 <= i < 4 ==> #[trigger] packed@[i] == Flags(four_flags[i] & 0x0F),
    {
        let a: u16 = (four_flags[0] & 0x0F) as u16;
        let b: u16 = (four_flags[1] & 0x0F) as u16;
        let c: u16 = (four_flags[2] & 0x0F) as u16;
        let d: u16 = (four_flags[3] & 0x0F) as u16;
        proof {
            lemma_low_nibble(four_flags[0]);
            lemma_low_nibble(four_flags[1]);
            lemma_low_nibble(four_flags[2]);
            lemma_low_nibble(four_flags[3]);
            lemma_pack_unpack(a, b, c, d);
        }
        let mut flags: u16 = 0;
        flags = a | (b << 4) | (c << 8) | (d << 12);
        let packed = Self { flags };
        assert forall|i: int| 0 <= i < 4 implies #[trigger] packed@[i] == Flags(
            four_flags[i] & 0x0F,
        ) by {
            if i == 0 {
                assert(nibble(flags, 0) == a);
            } else if i == 1 {
                assert(nibble(flags, 1) == b);
            } else if i == 2 {
                assert(nibble(flags, 2) == c);
            } else {
                assert(nibble(flags, 3) == d);
            }
        }
        packed
    }

    /// The mask of cell `index`.
    pub fn at(&self, index: usize) -> (f: Flags)
        requires
            index < 4,
        ensures
            f == self@[index as int],
    {
        let shift: u16 = (4 * index) as u16;
        proof {
            lemma_nibble_small(self.flags, shift);
        }
        Flags(((self.flags >> shift) & 0x0F) as u8)
    }

    /// The four masks, unpacked.
    pub fn decompress(&self) -> (flags: [Flags; 4])
        ensures
            flags@ == self@,
    {
        let flags = [self.at(0), self.at(1), self.at(2), self.at(3)];
        assert(flags@ =~= self@);
        flags
    }
}

/// The hand-authored rotation states of each shape, in rotate-right order.
/// The square has one state, the other shapes four.
#[verifier::opaque]
pub open spec fn rotations_of(shape: Shape) -> Seq<Offsets> {
    match shape {
        Shape::I => seq![
            Offsets([V2 { x: -1i32, y: 0 }, V2 { x: 0, y: 0 }, V2 { x: 1, y: 0 }, V2 { x: 2, y: 0 }]),
            Offsets([V2 { x: 0, y: -1i32 }, V2 { x: 0, y: 0 }, V2 { x: 0, y: 1 }, V2 { x: 0, y: 2 }]),
            Offsets([V2 { x: -1i32, y: 1 }, V2 { x: 0, y: 1 }, V2 { x: 1, y: 1 }, V2 { x: 2, y: 1 }]),
            Offsets([V2 { x: 1, y: -1i32 }, V2 { x: 1, y: 0 }, V2 { x: 1, y: 1 }, V2 { x: 1, y: 2 }]),
        ],
        Shape::O => seq![
            Offsets([V2 { x: 0, y: 0 }, V2 { x: 1, y: 0 }, V2 { x: 0, y: 1 }, V2 { x: 1, y: 1 }]),
        ],
        Shape::T => seq![
            Offsets([V2 { x: -1i32, y: 0 }, V2 { x: 0, y: 0 }, V2 { x: 1, y: 0 }, V2 { x: 0, y: 1 }]),
            Offsets([V2 { x: 0, y: -1i32 }, V2 { x: 0, y: 0 }, V2 { x: 1, y: 0 }, V2 { x: 0, y: 1 }]),
            Offsets([V2 { x: 0, y: -1i32 }, V2 { x: -1i32, y: 0 }, V2 { x: 0, y: 0 }, V2 { x: 1, y: 0 }]),
            Offsets([V2 { x: 0, y: -1i32 }, V2 { x: -1i32, y: 0 }, V2 { x: 0, y: 0 }, V2 { x: 0, y: 1 }]),
        ],
        Shape::L => seq![
            Offsets([V2 { x: -1i32, y: 0 }, V2 { x: 0, y: 0 }, V2 { x: 1, y: 0 }, V2 { x: -1i32, y: 1 }]),
            Offsets([V2 { x: 0, y: -1i32 }, V2 { x: 0, y: 0 }, V2 { x: 0, y: 1 }, V2 { x: 1, y: 1 }]),
            Offsets([V2 { x: 1, y: -1i32 }, V2 { x: -1i32, y: 0 }, V2 { x: 0, y: 0 }, V2 { x: 1, y: 0 }]),
            Offsets([V2 { x: -1i32, y: -1i32 }, V2 { x: 0, y: -1i32 }, V2 { x: 0, y: 0 }, V2 { x: 0, y: 1 }]),
        ],
        Shape::J => seq![
            Offsets([V2 { x: -1i32, y: 0 }, V2 { x: 0, y: 0 }, V2 { x: 1, y: 0 }, V2 { x: 1, y: 1 }]),
            Offsets([V2 { x: 0, y: -1i32 }, V2 { x: 1, y: -1i32 }, V2 { x: 0, y: 0 }, V2 { x: 0, y: 1 }]),
            Offsets([V2 { x: -1i32, y: -1i32 }, V2 { x: -1i32, y: 0 }, V2 { x: 0, y: 0 }, V2 { x: 1, y: 0 }]),
            Offsets([V2 { x: 0, y: -1i32 }, V2 { x: 0, y: 0 }, V2 { x: -1i32, y: 1 }, V2 { x: 0, y: 1 }]),
        ],
        Shape::S => seq![
            Offsets([V2 { x: 0, y: 0 }, V2 { x: 1, y: 0 }, V2 { x: -1i32, y: 1 }, V2 { x: 0, y: 1 }]),
            Offsets([V2 { x: 0, y: -1i32 }, V2 { x: 0, y: 0 }, V2 { x: 1, y: 0 }, V2 { x: 1, y: 1 }]),
            Offsets([V2 { x: 0, y: -1i32 }, V2 { x: 1, y: -1i32 }, V2 { x: -1i32, y: 0 }, V2 { x: 0, y: 0 }]),
            Offsets([V2 { x: -1i32, y: -1i32 }, V2 { x: -1i32, y: 0 }, V2 { x: 0, y: 0 }, V2 { x: 0, y: 1 }]),
        ],
        Shape::Z => seq![
            Offsets([V2 { x: -1i32, y: 0 }, V2 { x: 0, y: 0 }, V2 { x: 0, y: 1 }, V2 { x: 1, y: 1 }]),
            Offsets([V2 { x: 1, y: -1i32 }, V2 { x: 0, y: 0 }, V2 { x: 1, y: 0 }, V2 { x: 0, y: 1 }]),
            Offsets([V2 { x: -1i32, y: -1i32 }, V2 { x: 0, y: -1i32 }, V2 { x: 0, y: 0 }, V2 { x: 1, y: 0 }]),
            Offsets([V2 { x: 0, y: -1i32 }, V2 { x: -1i32, y: 0 }, V2 { x: 0, y: 0 }, V2 { x: -1i32, y: 1 }]),
        ],
    }
}

/// For each rotation state of each shape, the collision mask of each cell:
/// the directions in which that cell has no cell of its own piece beside it.
#[verifier::opaque]
pub open spec fn masks_of(shape: Shape) -> Seq<[u8; 4]> {
    match shape {
        Shape::I => seq![
            [LEFT | VERTICAL, VERTICAL, VERTICAL, VERTICAL | RIGHT],
            [UP | HORIZONTAL, HORIZONTAL, HORIZONTAL, HORIZONTAL | DOWN],
            [LEFT | VERTICAL, VERTICAL, VERTICAL, VERTICAL | RIGHT],
            [UP | HORIZONTAL, HORIZONTAL, HORIZONTAL, HORIZONTAL | DOWN],
        ],
        Shape::O => seq![
            [LEFT | UP, UP | RIGHT, LEFT | DOWN, DOWN | RIGHT],
        ],
        Shape::T => seq![
            [LEFT | VERTICAL, UP, VERTICAL | RIGHT, HORIZONTAL | DOWN],
            [HORIZONTAL | UP, LEFT, VERTICAL | RIGHT, HORIZONTAL | DOWN],
            [UP | HORIZONTAL, LEFT | VERTICAL, DOWN, VERTICAL | RIGHT],
            [UP | HORIZONTAL, LEFT | VERTICAL, RIGHT, HORIZONTAL | DOWN],
        ],
        Shape::L => seq![
            [UP | LEFT, VERTICAL, VERTICAL | RIGHT, HORIZONTAL | DOWN],
            [UP | HORIZONTAL, HORIZONTAL, LEFT | DOWN, VERTICAL | RIGHT],
            [UP | HORIZONTAL, LEFT | VERTICAL, VERTICAL, DOWN | RIGHT],
            [LEFT | VERTICAL, UP | RIGHT, HORIZONTAL, HORIZONTAL | DOWN],
        ],
        Shape::J => seq![
            [LEFT | VERTICAL, VERTICAL, UP | RIGHT, HORIZONTAL | DOWN],
            [UP | LEFT, VERTICAL | RIGHT, HORIZONTAL, HORIZONTAL | DOWN],
            [HORIZONTAL | UP, LEFT | DOWN, VERTICAL, VERTICAL | RIGHT],
            [UP | HORIZONTAL, HORIZONTAL, LEFT | VERTICAL, DOWN | RIGHT],
        ],
        Shape::S => seq![
            [UP | LEFT, VERTICAL | RIGHT, LEFT | VERTICAL, DOWN | RIGHT],
            [UP | HORIZONTAL, LEFT | DOWN, UP | RIGHT, HORIZONTAL | DOWN],
            [UP | LEFT, VERTICAL | RIGHT, LEFT | VERTICAL, DOWN | RIGHT],
            [UP | HORIZONTAL, LEFT | DOWN, UP | RIGHT, HORIZONTAL | DOWN],
        ],
        Shape::Z => seq![
            [LEFT | VERTICAL, UP | RIGHT, LEFT | DOWN, VERTICAL | RIGHT],
            [UP | HORIZONTAL, UP | LEFT, DOWN | RIGHT, HORIZONTAL | DOWN],
            [LEFT | VERTICAL, UP | RIGHT, LEFT | DOWN, VERTICAL | RIGHT],
            [UP | HORIZONTAL, UP | LEFT, DOWN | RIGHT, HORIZONTAL | DOWN],
        ],
    }
}

/// The rotation table of one shape: its rotation states, and for each state
/// the collision masks of its cells, index-aligned with the offsets.
pub struct ShapeData {
    pub rotations: Vec<Offsets>,
    pub directions: Vec<MovementFlags>,
}

proof fn lemma_masks_are_nibbles()
    by (bit_vector)
    ensures
        forall|a: u8, b: u8| a < 16 && b < 16 ==> #[trigger] (a | b) < 16,
{
}

impl ShapeData {
    /// Whether this is the table of `shape`.
    pub open spec fn is_table_of(self, shape: Shape) -> bool {
        &&& self.rotations@ == rotations_of(shape)
        &&& self.rotations@.len() == shape.state_count()
        &&& self.directions@.len() == shape.state_count()
        &&& forall|s: int|
            0 <= s < shape.state_count() ==> (#[trigger] self.directions@[s])@.len() == 4
        &&& forall|s: int, i: int|
            0 <= s < shape.state_count() && 0 <= i < 4 ==> #[trigger] self.directions@[s]@[i]
                == Flags(masks_of(shape)[s][i])
    }

    /// The table of `shape`.
    pub fn of(shape: Shape) -> (data: ShapeData)
        ensures
            data.is_table_of(shape),
    {
        proof {
            reveal(rotations_of);
            reveal(masks_of);
            lemma_masks_are_nibbles();
        }
        let data = match shape {
            Shape::I => ShapeData {
                rotations: vec![
                    Offsets([V2 { x: -1, y: 0 }, V2 { x: 0, y: 0 }, V2 { x: 1, y: 0 }, V2 { x: 2, y: 0 }]),
                    Offsets([V2 { x: 0, y: -1 }, V2 { x: 0, y: 0 }, V2 { x: 0, y: 1 }, V2 { x: 0, y: 2 }]),
                    Offsets([V2 { x: -1, y: 1 }, V2 { x: 0, y: 1 }, V2 { x: 1, y: 1 }, V2 { x: 2, y: 1 }]),
                    Offsets([V2 { x: 1, y: -1 }, V2 { x: 1, y: 0 }, V2 { x: 1, y: 1 }, V2 { x: 1, y: 2 }]),
                ],
                directions: vec![
                    MovementFlags::new(&[LEFT | VERTICAL, VERTICAL, VERTICAL, VERTICAL | RIGHT]),
                    MovementFlags::new(&[UP | HORIZONTAL, HORIZONTAL, HORIZONTAL, HORIZONTAL | DOWN]),
                    MovementFlags::new(&[LEFT | VERTICAL, VERTICAL, VERTICAL, VERTICAL | RIGHT]),
                    MovementFlags::new(&[UP | HORIZONTAL, HORIZONTAL, HORIZONTAL, HORIZONTAL | DOWN]),
                ],
            },
            Shape::O => ShapeData {
                rotations: vec![
                    Offsets([V2 { x: 0, y: 0 }, V2 { x: 1, y: 0 }, V2 { x: 0, y: 1 }, V2 { x: 1, y: 1 }]),
                ],
                directions: vec![
                    MovementFlags::new(&[LEFT | UP, UP | RIGHT, LEFT | DOWN, DOWN | RIGHT]),
                ],
            },
            Shape::T => ShapeData {
                rotations: vec![
                    Offsets([V2 { x: -1, y: 0 }, V2 { x: 0, y: 0 }, V2 { x: 1, y: 0 }, V2 { x: 0, y: 1 }]),
                    Offsets([V2 { x: 0, y: -1 }, V2 { x: 0, y: 0 }, V2 { x: 1, y: 0 }, V2 { x: 0, y: 1 }]),
                    Offsets([V2 { x: 0, y: -1 }, V2 { x: -1, y: 0 }, V2 { x: 0, y: 0 }, V2 { x: 1, y: 0 }]),
                    Offsets([V2 { x: 0, y: -1 }, V2 { x: -1, y: 0 }, V2 { x: 0, y: 0 }, V2 { x: 0, y: 1 }]),
                ],
                directions: vec![
                    MovementFlags::new(&[LEFT | VERTICAL, UP, VERTICAL | RIGHT, HORIZONTAL | DOWN]),
                    MovementFlags::new(&[HORIZONTAL | UP, LEFT, VERTICAL | RIGHT, HORIZONTAL | DOWN]),
                    MovementFlags::new(&[UP | HORIZONTAL, LEFT | VERTICAL, DOWN, VERTICAL | RIGHT]),
                    MovementFlags::new(&[UP | HORIZONTAL, LEFT | VERTICAL, RIGHT, HORIZONTAL | DOWN]),
                ],
            },
            Shape::L => ShapeData {
                rotations: vec![
                    Offsets([V2 { x: -1, y: 0 }, V2 { x: 0, y: 0 }, V2 { x: 1, y: 0 }, V2 { x: -1, y: 1 }]),
                    Offsets([V2 { x: 0, y: -1 }, V2 { x: 0, y: 0 }, V2 { x: 0, y: 1 }, V2 { x: 1, y: 1 }]),
                    Offsets([V2 { x: 1, y: -1 }, V2 { x: -1, y: 0 }, V2 { x: 0, y: 0 }, V2 { x: 1, y: 0 }]),
                    Offsets([V2 { x: -1, y: -1 }, V2 { x: 0, y: -1 }, V2 { x: 0, y: 0 }, V2 { x: 0, y: 1 }]),
                ],
                directions: vec![
                    MovementFlags::new(&[UP | LEFT, VERTICAL, VERTICAL | RIGHT, HORIZONTAL | DOWN]),
                    MovementFlags::new(&[UP | HORIZONTAL, HORIZONTAL, LEFT | DOWN, VERTICAL | RIGHT]),
                    MovementFlags::new(&[UP | HORIZONTAL, LEFT | VERTICAL, VERTICAL, DOWN | RIGHT]),
                    MovementFlags::new(&[LEFT | VERTICAL, UP | RIGHT, HORIZONTAL, HORIZONTAL | DOWN]),
                ],
            },
            Shape::J => ShapeData {
                rotations: vec![
                    Offsets([V2 { x: -1, y: 0 }, V2 { x: 0, y: 0 }, V2 { x: 1, y: 0 }, V2 { x: 1, y: 1 }]),
                    Offsets([V2 { x: 0, y: -1 }, V2 { x: 1, y: -1 }, V2 { x: 0, y: 0 }, V2 { x: 0, y: 1 }]),
                    Offsets([V2 { x: -1, y: -1 }, V2 { x: -1, y: 0 }, V2 { x: 0, y: 0 }, V2 { x: 1, y: 0 }]),
                    Offsets([V2 { x: 0, y: -1 }, V2 { x: 0, y: 0 }, V2 { x: -1, y: 1 }, V2 { x: 0, y: 1 }]),
                ],
                directions: vec![
                    MovementFlags::new(&[LEFT | VERTICAL, VERTICAL, UP | RIGHT, HORIZONTAL | DOWN]),
                    MovementFlags::new(&[UP | LEFT, VERTICAL | RIGHT, HORIZONTAL, HORIZONTAL | DOWN]),
                    MovementFlags::new(&[HORIZONTAL | UP, LEFT | DOWN, VERTICAL, VERTICAL | RIGHT]),
                    MovementFlags::new(&[UP | HORIZONTAL, HORIZONTAL, LEFT | VERTICAL, DOWN | RIGHT]),
                ],
            },
            Shape::S => ShapeData {
                rotations: vec![
                    Offsets([V2 { x: 0, y: 0 }, V2 { x: 1, y: 0 }, V2 { x: -1, y: 1 }, V2 { x: 0, y: 1 }]),
                    Offsets([V2 { x: 0, y: -1 }, V2 { x: 0, y: 0 }, V2 { x: 1, y: 0 }, V2 { x: 1, y: 1 }]),
                    Offsets([V2 { x: 0, y: -1 }, V2 { x: 1, y: -1 }, V2 { x: -1, y: 0 }, V2 { x: 0, y: 0 }]),
                    Offsets([V2 { x: -1, y: -1 }, V2 { x: -1, y: 0 }, V2 { x: 0, y: 0 }, V2 { x: 0, y: 1 }]),
                ],
                directions: vec![
                    MovementFlags::new(&[UP | LEFT, VERTICAL | RIGHT, LEFT | VERTICAL, DOWN | RIGHT]),
                    MovementFlags::new(&[UP | HORIZONTAL, LEFT | DOWN, UP | RIGHT, HORIZONTAL | DOWN]),
                    MovementFlags::new(&[UP | LEFT, VERTICAL | RIGHT, LEFT | VERTICAL, DOWN | RIGHT]),
                    MovementFlags::new(&[UP | HORIZONTAL, LEFT | DOWN, UP | RIGHT, HORIZONTAL | DOWN]),
                ],
            },
            Shape::Z => ShapeData {
                rotations: vec![
                    Offsets([V2 { x: -1, y: 0 }, V2 { x: 0, y: 0 }, V2 { x: 0, y: 1 }, V2 { x: 1, y: 1 }]),
                    Offsets([V2 { x: 1, y: -1 }, V2 { x: 0, y: 0 }, V2 { x: 1, y: 0 }, V2 { x: 0, y: 1 }]),
                    Offsets([V2 { x: -1, y: -1 }, V2 { x: 0, y: -1 }, V2 { x: 0, y: 0 }, V2 { x: 1, y: 0 }]),
                    Offsets([V2 { x: 0, y: -1 }, V2 { x: -1, y: 0 }, V2 { x: 0, y: 0 }, V2 { x: -1, y: 1 }]),
                ],
                directions: vec![
                    MovementFlags::new(&[LEFT | VERTICAL, UP | RIGHT, LEFT | DOWN, VERTICAL | RIGHT]),
                    MovementFlags::new(&[UP | HORIZONTAL, UP | LEFT, DOWN | RIGHT, HORIZONTAL | DOWN]),
                    MovementFlags::new(&[LEFT | VERTICAL, UP | RIGHT, LEFT | DOWN, VERTICAL | RIGHT]),
                    MovementFlags::new(&[UP | HORIZONTAL, UP | LEFT, DOWN | RIGHT, HORIZONTAL | DOWN]),
                ],
            },
        };
        assert(data.rotations@ =~= rotations_of(shape));
        assert(data.directions@.len() == masks_of(shape).len());
        assert forall|s: int, i: int|
            0 <= s < shape.state_count() && 0 <= i < 4 implies #[trigger] data.directions@[s]@[i]
            == Flags(masks_of(shape)[s][i]) by {
            lemma_low_nibble(masks_of(shape)[s][i]);
        }
        data
    }
}

} // verus!
