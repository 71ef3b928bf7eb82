//! The die that chooses the shape of the next piece.

use crate::tetromino::Shape;
use rand::Rng;
use vstd::prelude::*;

verus! {

/// A number below `bound` from the generator of the current thread, by
/// `rand::Rng::gen_range` on `0..bound`. Which number it is depends on
/// chance: all that is claimed is that it lies in the range, as the
/// documentation of `gen_range` says. An empty range makes that function
/// panic, so `bound` must not be zero.
#[verifier::external_body]
fn random_below(bound: u32) -> (roll: u32)
    requires
        bound > 0,
    ensures
        roll < bound,
{
    rand::thread_rng().gen_range(0..bound)
}

/// The shape that a roll of the twenty-four-sided die stands for: one face
/// for the bar, two for the square, three for the T, four each for L and J,
/// five each for S and Z.
pub open spec fn shape_of_roll(roll: int) -> Shape {
    if roll <= 0 {
        Shape::I
    } else if roll <= 2 {
        Shape::O
    } else if roll <= 5 {
        Shape::T
    } else if roll <= 9 {
        Shape::L
    } else if roll <= 13 {
        Shape::J
    } else if roll <= 18 {
        Shape::S
    } else {
        Shape::Z
    }
}

impl Shape {
    /// The shape that the given face of the twenty-four-sided die stands for.
    pub fn from_roll(roll: u32) -> (shape: Shape)
        requires
            roll < 24,
        ensures
            shape == shape_of_roll(roll as int),
    {
        if roll == 0 {
            Shape::I
        } else if roll <= 2 {
            Shape::O
        } else if roll <= 5 {
            Shape::T
        } else if roll <= 9 {
            Shape::L
        } else if roll <= 13 {
            Shape::J
        } else if roll <= 18 {
            Shape::S
        } else {
            Shape::Z
        }
    }
}

/// One roll of the twenty-four-sided die: a face from 0 to 23.
pub fn roll_die() -> (roll: u32)
    ensures
        roll < 24,
{
    random_below(24)
}

/// A shape chosen by one roll of the twenty-four-sided die.
pub fn random_shape() -> (shape: Shape)
    ensures
        exists|roll: int| 0 <= roll < 24 && shape == shape_of_roll(roll),
{
    let roll = roll_die();
    Shape::from_roll(roll)
}

} // verus!
