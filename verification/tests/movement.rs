use throne::movement::{player_movement, GamepadState, KeyboardState};
use throne::physics::Velocity;
use throne::player::Player;
use throne::Vec2;

fn no_keys() -> KeyboardState {
    KeyboardState { a_pressed: false, d_pressed: false, s_pressed: false, w_pressed: false }
}

fn idle_pad() -> GamepadState {
    GamepadState {
        north_just_pressed: false,
        east_just_pressed: false,
        left_trigger_pressed: false,
        right_trigger_pressed: false,
        left_stick_x: 0,
        left_stick_y: 0,
    }
}

#[test]
fn zero_keyboard_input_zero_velocity() {
    let player = Player::new(100_000);
    let out = player_movement(None, no_keys(), &player, Vec2::zero());
    assert_eq!(out.velocity, Velocity::zero());
    assert_eq!(out.zoom_delta, 0);
    assert!(out.spawn_block.is_none());
    assert!(out.spawn_enemy.is_none());
}

#[test]
fn keyboard_cardinal_direction() {
    let player = Player::new(100_000);
    let keys = KeyboardState { a_pressed: false, d_pressed: true, s_pressed: false, w_pressed: false };
    let out = player_movement(None, keys, &player, Vec2::zero());
    assert_eq!(out.velocity, Velocity::new(1000 * 100_000, 0));
}

#[test]
fn keyboard_diagonal_direction() {
    let player = Player::new(100_000);
    let keys = KeyboardState { a_pressed: false, d_pressed: true, s_pressed: false, w_pressed: true };
    let out = player_movement(None, keys, &player, Vec2::zero());
    assert_eq!(out.velocity, Velocity::new(707 * 100_000, 707 * 100_000));
}

#[test]
fn keyboard_opposing_keys_cancel() {
    let player = Player::new(100_000);
    let keys = KeyboardState { a_pressed: true, d_pressed: true, s_pressed: true, w_pressed: false };
    let out = player_movement(None, keys, &player, Vec2::zero());
    // The x axis cancels; the y axis alone gives a whole unit downward.
    assert_eq!(out.velocity, Velocity::new(0, -1000 * 100_000));
}

#[test]
fn zero_stick_zero_velocity() {
    let player = Player::new(100_000);
    let out = player_movement(Some(idle_pad()), no_keys(), &player, Vec2::zero());
    assert_eq!(out.velocity, Velocity::zero());
}

#[test]
fn stick_below_deadzone_zero_velocity() {
    let player = Player::new(100_000);
    let mut pad = idle_pad();
    pad.left_stick_x = 60;
    pad.left_stick_y = 60;
    let out = player_movement(Some(pad), no_keys(), &player, Vec2::zero());
    assert_eq!(out.velocity, Velocity::zero());
}

#[test]
fn stick_at_deadzone_boundary_moves() {
    let player = Player::new(100_000);
    let mut pad = idle_pad();
    pad.left_stick_x = 100;
    let out = player_movement(Some(pad), no_keys(), &player, Vec2::zero());
    assert_eq!(out.velocity, Velocity::new(100 * 100_000, 0));
}

#[test]
fn stick_outside_deadzone_scales_by_speed() {
    let player = Player::new(50_000);
    let mut pad = idle_pad();
    pad.left_stick_x = -800;
    pad.left_stick_y = 600;
    let out = player_movement(Some(pad), no_keys(), &player, Vec2::zero());
    assert_eq!(out.velocity, Velocity::new(-800 * 50_000, 600 * 50_000));
}

#[test]
fn north_button_drops_block_at_player() {
    let player = Player::new(100_000);
    let mut pad = idle_pad();
    pad.north_just_pressed = true;
    let at = Vec2::new(5_000, -7_000);
    let out = player_movement(Some(pad), no_keys(), &player, at);
    let block = out.spawn_block.expect("north press should drop a block");
    assert_eq!(block.translation, at);
    assert_eq!(block.size, Vec2::new(16_000, 16_000));
    assert_eq!(block.collider_half, Vec2::new(8_000, 8_000));
    assert!(out.spawn_enemy.is_none());
}

#[test]
fn east_button_spawns_enemy_at_player() {
    let player = Player::new(100_000);
    let mut pad = idle_pad();
    pad.east_just_pressed = true;
    let at = Vec2::new(-1_000, 2_000);
    let out = player_movement(Some(pad), no_keys(), &player, at);
    let enemy = out.spawn_enemy.expect("east press should spawn an enemy");
    assert_eq!(enemy.translation, at);
    assert!((175..300).contains(&enemy.anim_period_ms));
    assert_eq!(enemy.collider_half, Vec2::new(8_000, 11_500));
    assert_eq!(enemy.linear_damping, 10_000);
    assert!(enemy.lock_rotations);
    assert!(out.spawn_block.is_none());
}

#[test]
fn triggers_zoom_the_camera() {
    let player = Player::new(100_000);
    let mut pad = idle_pad();
    pad.left_trigger_pressed = true;
    let out = player_movement(Some(pad), no_keys(), &player, Vec2::zero());
    assert_eq!(out.zoom_delta, 10);

    pad.left_trigger_pressed = false;
    pad.right_trigger_pressed = true;
    let out = player_movement(Some(pad), no_keys(), &player, Vec2::zero());
    assert_eq!(out.zoom_delta, -10);

    pad.left_trigger_pressed = true;
    let out = player_movement(Some(pad), no_keys(), &player, Vec2::zero());
    assert_eq!(out.zoom_delta, 0);
}

#[test]
fn keyboard_ignored_while_gamepad_connected() {
    let player = Player::new(100_000);
    let keys = KeyboardState { a_pressed: false, d_pressed: true, s_pressed: false, w_pressed: false };
    let out = player_movement(Some(idle_pad()), keys, &player, Vec2::zero());
    assert_eq!(out.velocity, Velocity::zero());
}
