use vstd::prelude::*;

verus! {

/// Number of millionths in one unit.
pub const SCALE: i64 = 1_000_000;

/// A signed decimal amount held exactly, in millionths of a unit.
#[derive(Clone, Copy, Debug, PartialEq, Eq, Structural)]
pub struct Quantity {
    pub millionths: i64,
}

impl View for Quantity {
    type V = int;

    /// The amount in millionths.
    open spec fn view(&self) -> int {
        self.millionths as int
    }
}

impl Quantity {
    /// An amount given in millionths.
    pub fn from_millionths(millionths: i64) -> (r: Quantity)
        ensures
            r@ == millionths,
    {
        Quantity { millionths }
    }

    /// A whole number of units.
    pub fn from_integer(units: i32) -> (r: Quantity)
        ensures
            r@ == units * SCALE,
    {
        Quantity { millionths: units as i64 * SCALE }
    }

    /// The amount in millionths.
    pub fn millionths(&self) -> (r: i64)
        ensures
            r == self@,
    {
        self.millionths
    }
}

} // verus!
