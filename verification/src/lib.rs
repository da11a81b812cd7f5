//! Core logic of a 2D top-down action game prototype.
//!
//! The game's rendering, scheduling and rigid-body physics live in a host
//! engine; this crate holds the per-frame decisions the game itself makes:
//! mapping keyboard and gamepad state to a velocity, tracking which gamepads
//! are connected, toggling the pause overlay, advancing sprite-sheet
//! animation, following the player with the camera, choosing scene actions,
//! and loading the wall layout from its text format.
//!
//! All geometry is fixed-point: lengths, axis values and scale factors are
//! integer thousandths of the world unit (milli-units), and velocities are
//! integer millionths of a unit per second (micro-units), so that every
//! computation here is exact.

use vstd::prelude::*;

pub mod anim;
pub mod camera;
pub mod debug_ui;
pub mod gamepad;
pub mod movement;
pub mod pause;
pub mod physics;
pub mod player;
pub mod random;
pub mod scene;
pub mod setup;
pub mod spawn;
pub mod walls;

verus! {

/// Milli-units per whole world unit.
pub const MILLI: i64 = 1000;

/// A fixed-point 2D vector in milli-units.
#[derive(Clone, Copy, PartialEq, Eq, Structural, Debug)]
pub struct Vec2 {
    pub x: i64,
    pub y: i64,
}

impl Vec2 {
    pub fn new(x: i64, y: i64) -> (v: Vec2)
        ensures
            v == (Vec2 { x, y }),
    {
        Vec2 { x, y }
    }

    pub fn zero() -> (v: Vec2)
        ensures
            v == (Vec2 { x: 0, y: 0 }),
    {
        Vec2 { x: 0, y: 0 }
    }
}

/// The placement an entity gets from the engine: where it sits and how it is
/// scaled, both in milli-units.
#[derive(Clone, Copy, PartialEq, Eq, Structural, Debug)]
pub struct Transform2 {
    pub translation: Vec2,
    pub scale: Vec2,
}

} // verus!
