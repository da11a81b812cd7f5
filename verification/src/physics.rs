//! The velocity component handed to the physics engine each frame.

use vstd::prelude::*;

verus! {

/// A linear velocity in micro-units per second (millionths of a world unit),
/// the product of a milli-unit direction and a milli-unit speed.
#[derive(Clone, Copy, PartialEq, Eq, Structural, Debug)]
pub struct Velocity {
    pub x: i64,
    pub y: i64,
}

impl Velocity {
    pub fn new(x: i64, y: i64) -> (v: Velocity)
        ensures
            v == (Velocity { x, y }),
    {
        Velocity { x, y }
    }

    pub fn zero() -> (v: Velocity)
        ensures
            v == (Velocity { x: 0, y: 0 }),
    {
        Velocity { x: 0, y: 0 }
    }
}

} // verus!
