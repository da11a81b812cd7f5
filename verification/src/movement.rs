//! The per-frame movement control: maps the active input device to a
//! velocity and to the actions bound to the gamepad buttons.

use vstd::prelude::*;
use crate::physics::Velocity;
use crate::player::Player;
use crate::spawn::EnemySpawn;
use crate::spawn::enemy_spawn_ok;
use crate::spawn::spawn_enemy_at;
use crate::camera::ZOOM_STEP;
use crate::Vec2;

verus! {

/// A gamepad axis reaches at most one whole unit, 1000 milli-units.
pub const STICK_MAX: i64 = 1_000;

/// Stick deflections whose magnitude is below 0.1, i.e. 100 milli-units, are
/// ignored.
pub const DEADZONE: i64 = 100;

/// Keyboard direction component along one axis when moving diagonally:
/// 1/sqrt(2) of a unit, in milli-units.
pub const DIAG: i64 = 707;

/// Side of the block a gamepad button drops at the player, in milli-units.
pub const BLOCK_SIDE: i64 = 16_000;

/// The four movement keys, as held this frame.
#[derive(Clone, Copy, PartialEq, Eq, Structural, Debug)]
pub struct KeyboardState {
    pub a_pressed: bool,
    pub d_pressed: bool,
    pub s_pressed: bool,
    pub w_pressed: bool,
}

/// The state of the active gamepad this frame. Stick axes are in
/// milli-units of full deflection.
#[derive(Clone, Copy, PartialEq, Eq, Structural, Debug)]
pub struct GamepadState {
    pub north_just_pressed: bool,
    pub east_just_pressed: bool,
    pub left_trigger_pressed: bool,
    pub right_trigger_pressed: bool,
    pub left_stick_x: i64,
    pub left_stick_y: i64,
}

impl GamepadState {
    /// Axis values reported by the pad stay within one whole unit of
    /// deflection.
    pub open spec fn wf(self) -> bool {
        &&& -STICK_MAX <= self.left_stick_x <= STICK_MAX
        &&& -STICK_MAX <= self.left_stick_y <= STICK_MAX
    }
}

/// A static block to drop at the player's feet.
#[derive(Clone, Copy, PartialEq, Eq, Structural, Debug)]
pub struct BlockSpawn {
    pub translation: Vec2,
    pub size: Vec2,
    pub collider_half: Vec2,
}

/// Everything the movement control decided this frame.
pub struct MovementOutcome {
    pub spawn_block: Option<BlockSpawn>,
    pub spawn_enemy: Option<EnemySpawn>,
    pub zoom_delta: i64,
    pub velocity: Velocity,
}

/// The stick is in the dead zone when its squared magnitude is below the
/// squared threshold (both in milli-units).
pub open spec fn stick_in_deadzone(x: int, y: int) -> bool {
    x * x + y * y < DEADZONE * DEADZONE
}

/// A key axis is the difference of its positive and negative keys.
pub open spec fn key_axis(neg: bool, pos: bool) -> int {
    (if pos { 1int } else { 0int }) - (if neg { 1int } else { 0int })
}

/// The milli-unit direction the keyboard gives along one axis: a whole unit
/// alone, 1/sqrt(2) on a diagonal, nothing when the axis is idle.
pub open spec fn key_dir(own_axis: int, other_axis: int) -> int {
    if own_axis == 0 {
        0int
    } else if other_axis == 0 {
        own_axis * STICK_MAX
    } else {
        own_axis * DIAG
    }
}

/// Held zoom triggers move the camera scale one step each, in opposite
/// directions.
pub open spec fn zoom_from_triggers(zoom_in: bool, zoom_out: bool) -> int {
    (if zoom_in { ZOOM_STEP as int } else { 0int }) - (if zoom_out {
        ZOOM_STEP as int
    } else {
        0int
    })
}

/// The block dropped by the gamepad's north button: a square at the given
/// place whose collider is its half size.
pub open spec fn spec_block_spawn(at: Vec2) -> BlockSpawn {
    BlockSpawn {
        translation: at,
        size: Vec2 { x: BLOCK_SIDE, y: BLOCK_SIDE },
        collider_half: Vec2 { x: (BLOCK_SIDE / 2) as i64, y: (BLOCK_SIDE / 2) as i64 },
    }
}

/// Decides one frame of player control.
///
/// With a gamepad connected its buttons act: north drops a block at the
/// player, east spawns an enemy there, the triggers zoom the camera, and the
/// left stick, ignored inside the dead zone, is scaled by the player's speed
/// into the velocity. With no gamepad the four keyboard keys give a unit (or
/// zero) direction, scaled by the same speed. Velocities come out in
/// micro-units per second.
pub fn player_movement(
    pad: Option<GamepadState>,
    keys: KeyboardState,
    player: &Player,
    player_translation: Vec2,
) -> (outcome: MovementOutcome)
    requires
        pad matches Some(p) ==> p.wf(),
    ensures
        pad is None ==> {
            &&& outcome.spawn_block is None
            &&& outcome.spawn_enemy is None
            &&& outcome.zoom_delta == 0
            &&& outcome.velocity.x == key_dir(
                key_axis(keys.a_pressed, keys.d_pressed),
                key_axis(keys.s_pressed, keys.w_pressed),
            ) * player.move_speed
            &&& outcome.velocity.y == key_dir(
                key_axis(keys.s_pressed, keys.w_pressed),
                key_axis(keys.a_pressed, keys.d_pressed),
            ) * player.move_speed
        },
        pad matches Some(p) ==> {
            &&& p.north_just_pressed ==> outcome.spawn_block == Some(
                spec_block_spawn(player_translation),
            )
            &&& !p.north_just_pressed ==> outcome.spawn_block is None
            &&& p.east_just_pressed ==> (outcome.spawn_enemy matches Some(e) && enemy_spawn_ok(e)
                && e.translation == player_translation)
            &&& !p.east_just_pressed ==> outcome.spawn_enemy is None
            &&& outcome.zoom_delta == zoom_from_triggers(
                p.left_trigger_pressed,
                p.right_trigger_pressed,
            )
            &&& stick_in_deadzone(p.left_stick_x as int, p.left_stick_y as int)
                ==> outcome.velocity == (Velocity { x: 0, y: 0 })
            &&& !stick_in_deadzone(p.left_stick_x as int, p.left_stick_y as int) ==> {
                &&& outcome.velocity.x == p.left_stick_x * player.move_speed
                &&& outcome.velocity.y == p.left_stick_y * player.move_speed
            }
        },
{
    match pad {
        Some(p) => {
            let spawn_block = if p.north_just_pressed {
                Some(
                    BlockSpawn {
                        translation: player_translation,
                        size: Vec2 { x: BLOCK_SIDE, y: BLOCK_SIDE },
                        collider_half: Vec2 { x: BLOCK_SIDE / 2, y: BLOCK_SIDE / 2 },
                    },
                )
            } else {
                None
            };
            let spawn_enemy = if p.east_just_pressed {
                Some(spawn_enemy_at(player_translation))
            } else {
                None
            };
            let mut zoom_delta: i64 = 0;
            if p.left_trigger_pressed {
                zoom_delta = zoom_delta + ZOOM_STEP;
            }
            if p.right_trigger_pressed {
                zoom_delta = zoom_delta - ZOOM_STEP;
            }
            let sx = p.left_stick_x;
            let sy = p.left_stick_y;
            proof {
                assert(0 <= sx * sx <= 1000 * 1000) by (nonlinear_arith)
                    requires
                        -1000 <= sx <= 1000,
                ;
                assert(0 <= sy * sy <= 1000 * 1000) by (nonlinear_arith)
                    requires
                        -1000 <= sy <= 1000,
                ;
            }
            let velocity = if sx * sx + sy * sy < DEADZONE * DEADZONE {
                Velocity { x: 0, y: 0 }
            } else {
                scale_dir(sx, sy, player.move_speed)
            };
            MovementOutcome { spawn_block, spawn_enemy, zoom_delta, velocity }
        },
        None => {
            let xa: i64 = axis_value(keys.a_pressed, keys.d_pressed);
            let ya: i64 = axis_value(keys.s_pressed, keys.w_pressed);
            let dx: i64 = if xa == 0 {
                0
            } else if ya == 0 {
                xa * STICK_MAX
            } else {
                xa * DIAG
            };
            let dy: i64 = if ya == 0 {
                0
            } else if xa == 0 {
                ya * STICK_MAX
            } else {
                ya * DIAG
            };
            let velocity = scale_dir(dx, dy, player.move_speed);
            MovementOutcome {
                spawn_block: None,
                spawn_enemy: None,
                zoom_delta: 0,
                velocity,
            }
        },
    }
}

/// The executable form of a key axis.
fn axis_value(neg: bool, pos: bool) -> (v: i64)
    ensures
        v == key_axis(neg, pos),
{
    let p: i64 = if pos { 1 } else { 0 };
    let n: i64 = if neg { 1 } else { 0 };
    p - n
}

/// Scales a milli-unit direction by a milli-unit speed into a micro-unit
/// velocity.
fn scale_dir(dx: i64, dy: i64, speed: u32) -> (v: Velocity)
    requires
        -STICK_MAX <= dx <= STICK_MAX,
        -STICK_MAX <= dy <= STICK_MAX,
    ensures
        v.x == dx * speed,
        v.y == dy * speed,
{
    proof {
        assert(-1000 * u32::MAX as i64 <= dx * speed <= 1000 * u32::MAX as i64)
            by (nonlinear_arith)
            requires
                -1000 <= dx <= 1000,
                0 <= speed <= u32::MAX as i64,
        ;
        assert(-1000 * u32::MAX as i64 <= dy * speed <= 1000 * u32::MAX as i64)
            by (nonlinear_arith)
            requires
                -1000 <= dy <= 1000,
                0 <= speed <= u32::MAX as i64,
        ;
    }
    Velocity { x: dx * (speed as i64), y: dy * (speed as i64) }
}

} // verus!
