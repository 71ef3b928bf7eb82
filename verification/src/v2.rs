//! Integer 2D vectors used for board positions and cell offsets.

use vstd::prelude::*;
use vstd::std_specs::ops::{AddSpecImpl, DivSpecImpl, MulSpecImpl, SubSpecImpl};

verus! {

/// A position or offset on the board, in cells.
#[derive(Copy, Clone, Debug, PartialEq, Eq, Structural)]
pub struct V2 {
    pub x: i32,
    pub y: i32,
}

/// Whether `n` is representable as an `i32`.
pub open spec fn fits_i32(n: int) -> bool {
    i32::MIN <= n <= i32::MAX
}

/// Quotient of `a` by `b` rounded toward zero, as machine division does.
pub open spec fn trunc_div(a: int, b: int) -> int {
    if a >= 0 {
        a / b
    } else {
        -((-a) / b)
    }
}

impl V2 {
    /// Whether the componentwise sum with `other` is representable.
    pub open spec fn can_add(self, other: V2) -> bool {
        fits_i32(self.x + other.x) && fits_i32(self.y + other.y)
    }

    /// The componentwise sum with `other`.
    pub open spec fn plus(self, other: V2) -> V2 {
        V2 { x: (self.x + other.x) as i32, y: (self.y + other.y) as i32 }
    }

    /// The vector with the given coordinates.
    pub fn new(x: i32, y: i32) -> (v: Self)
        ensures
            v == (V2 { x, y }),
    {
        Self { x, y }
    }

}

impl Default for V2 {
    fn default() -> (v: Self)
        ensures
            v == (V2 { x: 0, y: 0 }),
    {
        V2 { x: 0, y: 0 }
    }
}

impl core::ops::Add for V2 {
    type Output = V2;

    fn add(self, other: V2) -> (sum: V2) {
        V2::new(self.x + other.x, self.y + other.y)
    }
}

impl AddSpecImpl for V2 {
    open spec fn obeys_add_spec() -> bool {
        true
    }

    open spec fn add_req(self, other: V2) -> bool {
        self.can_add(other)
    }

    open spec fn add_spec(self, other: V2) -> V2 {
        self.plus(other)
    }
}

impl core::ops::Div<i32> for V2 {
    type Output = V2;

    fn div(self, coef: i32) -> (q: V2) {
        V2::new(self.x / coef, self.y / coef)
    }
}

impl DivSpecImpl<i32> for V2 {
    open spec fn obeys_div_spec() -> bool {
        true
    }

    open spec fn div_req(self, coef: i32) -> bool {
        coef != 0 && (coef == -1 ==> self.x != i32::MIN && self.y != i32::MIN)
    }

    open spec fn div_spec(self, coef: i32) -> V2 {
        V2 { x: trunc_div(self.x as int, coef as int) as i32, y: trunc_div(self.y as int, coef as int) as i32 }
    }
}

impl core::ops::Sub for V2 {
    type Output = V2;

    fn sub(self, other: V2) -> (diff: V2) {
        V2::new(self.x - other.x, self.y - other.y)
    }
}

impl SubSpecImpl for V2 {
    open spec fn obeys_sub_spec() -> bool {
        true
    }

    open spec fn sub_req(self, other: V2) -> bool {
        fits_i32(self.x - other.x) && fits_i32(self.y - other.y)
    }

    open spec fn sub_spec(self, other: V2) -> V2 {
        V2 { x: (self.x - other.x) as i32, y: (self.y - other.y) as i32 }
    }
}

impl core::ops::Mul<i32> for V2 {
    type Output = V2;

    fn mul(self, coef: i32) -> (scaled: V2) {
        V2::new(self.x * coef, self.y * coef)
    }
}

impl MulSpecImpl<i32> for V2 {
    open spec fn obeys_mul_spec() -> bool {
        true
    }

    open spec fn mul_req(self, coef: i32) -> bool {
        fits_i32(self.x * coef) && fits_i32(self.y * coef)
    }

    open spec fn mul_spec(self, coef: i32) -> V2 {
        V2 { x: (self.x * coef) as i32, y: (self.y * coef) as i32 }
    }
}

} // verus!
