//! A point of the playfield.

use vstd::prelude::*;

verus! {

/// A point of the playfield, in micro-pixels. `x` grows to the right and `y`
/// grows downwards.
#[derive(Clone, Copy, PartialEq, Eq, Debug, Structural)]
pub struct Position {
    pub x: i64,
    pub y: i64,
}

impl Position {
    /// The point `(x, y)`.
    pub fn new(x: i64, y: i64) -> (p: Self)
        ensures
            p == (Position { x, y }),
    {
        Self { x, y }
    }
}

} // verus!
