//! Cardinal movement intents.

use crate::v2::V2;
use vstd::prelude::*;
use vstd::std_specs::convert::FromSpecImpl;

verus! {

/// One of the four directions a piece can be pushed in.
#[derive(Copy, Clone, Debug, PartialEq, Eq, Structural)]
pub enum Direction {
    Up,
    Down,
    Left,
    Right,
}

impl Direction {
    /// The one-cell displacement of a step in this direction; rows grow downward.
    pub open spec fn delta(self) -> V2 {
        match self {
            Direction::Up => V2 { x: 0, y: -1i32 },
            Direction::Down => V2 { x: 0, y: 1 },
            Direction::Left => V2 { x: -1i32, y: 0 },
            Direction::Right => V2 { x: 1, y: 0 },
        }
    }
}

impl From<Direction> for V2 {
    fn from(d: Direction) -> (v: V2) {
        match d {
            Direction::Up => V2::new(0, -1),
            Direction::Down => V2::new(0, 1),
            Direction::Left => V2::new(-1, 0),
            Direction::Right => V2::new(1, 0),
        }
    }
}

impl FromSpecImpl<Direction> for V2 {
    open spec fn obeys_from_spec() -> bool {
        true
    }

    open spec fn from_spec(d: Direction) -> V2 {
        d.delta()
    }
}

} // verus!
