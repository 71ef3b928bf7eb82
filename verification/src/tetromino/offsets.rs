//! The cell layout of one rotation state.

use crate::v2::V2;
use vstd::prelude::*;

verus! {

/// Four offsets from a piece's anchor. Put together they form a tetromino:
/// four cells connected edge to edge.
#[derive(Clone, Copy, Debug)]
pub struct Offsets(pub [V2; 4]);

impl Offsets {
    /// Whether some cell of the layout sits at `p`.
    pub open spec fn occupies(self, p: V2) -> bool {
        self.0[0] == p || self.0[1] == p || self.0[2] == p || self.0[3] == p
    }

    /// The number of cells, which is four for every layout.
    pub fn len(&self) -> (n: usize)
        ensures
            n == 4,
    {
        4
    }

    /// The offset of cell `index`.
    pub fn get(&self, index: usize) -> (v: V2)
        requires
            index < 4,
        ensures
            v == self.0[index as int],
    {
        self.0[index]
    }
}

} // verus!
