//! The camera that follows the player.

use vstd::prelude::*;
use crate::Transform2;
use crate::Vec2;

verus! {

/// Step, in milli-units, by which a held zoom trigger changes the camera
/// scale each frame.
pub const ZOOM_STEP: i64 = 10;

/// Marks the camera that tracks the player and carries the zoom it starts
/// with, in milli-units (a factor of one is `1000`).
#[derive(Clone, Copy, PartialEq, Eq, Structural, Debug)]
pub struct PlayerCamera {
    pub scale_factor: i64,
}

impl Default for PlayerCamera {
    /// The player camera starts zoomed in at 0.15, i.e. 150 milli-units.
    fn default() -> (c: PlayerCamera)
        ensures
            c.scale_factor == 150,
    {
        PlayerCamera { scale_factor: 150 }
    }
}

/// Applies the camera's starting zoom to its transform, leaving its position
/// alone.
pub fn setup_camera(transform: &mut Transform2, camera: &PlayerCamera)
    ensures
        final(transform).scale == (Vec2 { x: camera.scale_factor, y: camera.scale_factor }),
        final(transform).translation == old(transform).translation,
{
    transform.scale = Vec2 { x: camera.scale_factor, y: camera.scale_factor };
}

/// Applies one frame's zoom change to a camera transform, leaving its
/// position alone.
pub fn zoom_camera(transform: &mut Transform2, delta: i64)
    requires
        i64::MIN <= old(transform).scale.x + delta <= i64::MAX,
        i64::MIN <= old(transform).scale.y + delta <= i64::MAX,
    ensures
        final(transform).scale.x == old(transform).scale.x + delta,
        final(transform).scale.y == old(transform).scale.y + delta,
        final(transform).translation == old(transform).translation,
{
    transform.scale = Vec2 { x: transform.scale.x + delta, y: transform.scale.y + delta };
}

/// Centers the camera on the player, leaving the camera's zoom alone.
pub fn update_camera(player_translation: Vec2, transform: &mut Transform2)
    ensures
        final(transform).translation == player_translation,
        final(transform).scale == old(transform).scale,
{
    transform.translation = player_translation;
}

} // verus!
