//! The player marker component.

use vstd::prelude::*;

verus! {

/// Marks the player entity and carries its movement speed in milli-units per
/// second. The speed is stored unsigned, so it is non-negative by
/// construction.
#[derive(Clone, Copy, PartialEq, Eq, Structural, Debug)]
pub struct Player {
    pub move_speed: u32,
}

impl Player {
    pub fn new(move_speed: u32) -> (p: Player)
        ensures
            p.move_speed == move_speed,
    {
        Player { move_speed }
    }
}

} // verus!
