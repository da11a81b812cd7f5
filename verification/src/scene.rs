//! Scene save and load decisions.
//!
//! Serializing a scene and spawning a saved one are the engine's work; this
//! module decides, from the gamepad state, which of the two to ask for this
//! frame.

use vstd::prelude::*;

verus! {

/// What the scene system should do this frame.
#[derive(Clone, Copy, PartialEq, Eq, Structural, Debug)]
pub struct SceneAction {
    pub save: bool,
    pub load: bool,
}

/// Decides the scene actions for a frame: with a gamepad connected, its
/// select button saves the scene and its start button loads it; with none,
/// nothing happens.
pub fn scene_management(
    gamepad_connected: bool,
    select_just_pressed: bool,
    start_just_pressed: bool,
) -> (action: SceneAction)
    ensures
        action.save == (gamepad_connected && select_just_pressed),
        action.load == (gamepad_connected && start_just_pressed),
{
    SceneAction {
        save: gamepad_connected && select_just_pressed,
        load: gamepad_connected && start_just_pressed,
    }
}

} // verus!
