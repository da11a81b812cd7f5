//! Startup spawning: the player, the first enemies, and the records that
//! describe what the engine should build for each.

use vstd::prelude::*;
use crate::anim::FrameTimer;
use crate::player::Player;
use crate::random::random_in_range;
use crate::Vec2;

verus! {

/// Character sprite size in milli-units (the sheet holds 16 by 23 pixel
/// frames, one pixel per world unit).
pub const SPRITE_SIZE_X: i64 = 16_000;

pub const SPRITE_SIZE_Y: i64 = 23_000;

/// Scale applied to character sprites, in milli-units (a factor of one).
pub const SPRITE_SCALE: i64 = 1_000;

/// Columns and rows of the character sprite sheets.
pub const SPRITE_GRID_COLUMNS: u32 = 4;

pub const SPRITE_GRID_ROWS: u32 = 1;

/// The player's animation period in milliseconds.
pub const PLAYER_ANIM_PERIOD_MS: u32 = 225;

/// The player's movement speed in milli-units per second.
pub const PLAYER_MOVE_SPEED: u32 = 100_000;

/// Linear damping put on enemy bodies, in milli-units.
pub const ENEMY_DAMPING: i64 = 10_000;

/// Bounds of the random enemy animation period, in milliseconds: the draw is
/// at least the first and below the second.
pub const ENEMY_PERIOD_MIN_MS: u64 = 175;

pub const ENEMY_PERIOD_MAX_MS: u64 = 300;

/// The starting enemy row: its size, spacing and height in milli-units.
pub const ENEMY_COUNT: usize = 3;

pub const ENEMY_SPACING: i64 = 150_000;

pub const ENEMY_ROW_SHIFT: i64 = 300_000;

pub const ENEMY_ROW_Y: i64 = 300_000;

/// Everything the engine needs to build the player entity.
#[derive(Clone, Copy, PartialEq, Eq, Structural, Debug)]
pub struct PlayerSpawn {
    pub sprite_size: Vec2,
    pub grid_columns: u32,
    pub grid_rows: u32,
    pub scale: i64,
    pub anim: FrameTimer,
    pub collider_half: Vec2,
    pub lock_rotations: bool,
    pub player: Player,
}

/// Everything the engine needs to build one enemy entity.
#[derive(Clone, Copy, PartialEq, Eq, Structural, Debug)]
pub struct EnemySpawn {
    pub translation: Vec2,
    pub sprite_size: Vec2,
    pub scale: i64,
    pub anim_period_ms: u64,
    pub collider_half: Vec2,
    pub linear_damping: i64,
    pub lock_rotations: bool,
}

/// The fields every enemy record carries, whatever its place and its random
/// animation period: the shared sprite, a rotation-locked damped body, and a
/// period within the drawing bounds.
pub open spec fn enemy_spawn_ok(e: EnemySpawn) -> bool {
    &&& e.sprite_size == (Vec2 { x: SPRITE_SIZE_X, y: SPRITE_SIZE_Y })
    &&& e.scale == SPRITE_SCALE
    &&& ENEMY_PERIOD_MIN_MS <= e.anim_period_ms < ENEMY_PERIOD_MAX_MS
    &&& e.collider_half == (Vec2 {
        x: ((SPRITE_SIZE_X / 2) * SPRITE_SCALE / 1000) as i64,
        y: ((SPRITE_SIZE_Y / 2) * SPRITE_SCALE / 1000) as i64,
    })
    &&& e.linear_damping == ENEMY_DAMPING
    &&& e.lock_rotations
}

/// Builds the player: its sprite sheet, a repeating animation timer, a
/// dynamic rotation-locked body whose collider is the half sprite size, and
/// the movement speed.
pub fn spawn_player() -> (s: PlayerSpawn)
    ensures
        s.sprite_size == (Vec2 { x: SPRITE_SIZE_X, y: SPRITE_SIZE_Y }),
        s.grid_columns == SPRITE_GRID_COLUMNS,
        s.grid_rows == SPRITE_GRID_ROWS,
        s.scale == SPRITE_SCALE,
        s.anim.wf(),
        s.anim.period_ms == PLAYER_ANIM_PERIOD_MS,
        s.anim.frame_count == SPRITE_GRID_COLUMNS,
        s.anim.elapsed_ms == 0,
        s.anim.frame == 0,
        s.collider_half == (Vec2 {
            x: ((SPRITE_SIZE_X / 2) * SPRITE_SCALE / 1000) as i64,
            y: ((SPRITE_SIZE_Y / 2) * SPRITE_SCALE / 1000) as i64,
        }),
        s.lock_rotations,
        s.player.move_speed == PLAYER_MOVE_SPEED,
{
    let half_x: i64 = (SPRITE_SIZE_X / 2) * SPRITE_SCALE / 1000;
    let half_y: i64 = (SPRITE_SIZE_Y / 2) * SPRITE_SCALE / 1000;
    PlayerSpawn {
        sprite_size: Vec2 { x: SPRITE_SIZE_X, y: SPRITE_SIZE_Y },
        grid_columns: SPRITE_GRID_COLUMNS,
        grid_rows: SPRITE_GRID_ROWS,
        scale: SPRITE_SCALE,
        anim: FrameTimer::new(PLAYER_ANIM_PERIOD_MS, SPRITE_GRID_COLUMNS),
        collider_half: Vec2 { x: half_x, y: half_y },
        lock_rotations: true,
        player: Player::new(PLAYER_MOVE_SPEED),
    }
}

/// Builds one enemy at the given place, drawing its animation period at
/// random within the configured bounds.
pub fn spawn_enemy_at(translation: Vec2) -> (e: EnemySpawn)
    ensures
        enemy_spawn_ok(e),
        e.translation == translation,
{
    let period = random_in_range(ENEMY_PERIOD_MIN_MS, ENEMY_PERIOD_MAX_MS);
    EnemySpawn {
        translation,
        sprite_size: Vec2 { x: SPRITE_SIZE_X, y: SPRITE_SIZE_Y },
        scale: SPRITE_SCALE,
        anim_period_ms: period,
        collider_half: Vec2 {
            x: (SPRITE_SIZE_X / 2) * SPRITE_SCALE / 1000,
            y: (SPRITE_SIZE_Y / 2) * SPRITE_SCALE / 1000,
        },
        linear_damping: ENEMY_DAMPING,
        lock_rotations: true,
    }
}

/// Builds the starting row of enemies: evenly spaced across the top of the
/// arena, each with its own random animation period.
pub fn spawn_enemies() -> (v: Vec<EnemySpawn>)
    ensures
        v@.len() == ENEMY_COUNT,
        forall|i: int| 0 <= i < v@.len() ==> #[trigger] enemy_spawn_ok(v@[i]),
        forall|i: int| 0 <= i < v@.len() ==> (#[trigger] v@[i].translation) == (Vec2 {
            x: ((i + 1) * ENEMY_SPACING - ENEMY_ROW_SHIFT) as i64,
            y: ENEMY_ROW_Y,
        }),
{
    let mut v: Vec<EnemySpawn> = Vec::new();
    let mut idx: usize = 0;
    while idx < ENEMY_COUNT
        invariant
            idx <= ENEMY_COUNT,
            v@.len() == idx,
            forall|i: int| 0 <= i < v@.len() ==> #[trigger] enemy_spawn_ok(v@[i]),
            forall|i: int| 0 <= i < v@.len() ==> (#[trigger] v@[i].translation) == (Vec2 {
                x: ((i + 1) * ENEMY_SPACING - ENEMY_ROW_SHIFT) as i64,
                y: ENEMY_ROW_Y,
            }),
        decreases ENEMY_COUNT - idx,
    {
        let n: i64 = idx as i64 + 1;
        let e = spawn_enemy_at(Vec2 { x: n * ENEMY_SPACING - ENEMY_ROW_SHIFT, y: ENEMY_ROW_Y });
        v.push(e);
        idx = idx + 1;
    }
    v
}

} // verus!
