use throne::anim::FrameTimer;
use throne::camera::{setup_camera, update_camera, zoom_camera, PlayerCamera};
use throne::debug_ui::debug_ui_update;
use throne::pause::{pause, PauseScreenItem, Paused};
use throne::scene::scene_management;
use throne::setup::setup;
use throne::spawn::{spawn_enemies, spawn_player};
use throne::{Transform2, Vec2};

#[test]
fn pause_toggles_visibility_of_all_items() {
    let mut paused = Paused(false);
    let mut items = vec![
        PauseScreenItem { is_visible: false },
        PauseScreenItem { is_visible: false },
        PauseScreenItem { is_visible: true },
    ];
    pause(true, &mut paused, &mut items);
    assert!(paused.0);
    assert!(items.iter().all(|item| item.is_visible));
    pause(true, &mut paused, &mut items);
    assert!(!paused.0);
    assert!(items.iter().all(|item| !item.is_visible));
}

#[test]
fn pause_without_key_changes_nothing() {
    let mut paused = Paused(true);
    let mut items = vec![PauseScreenItem { is_visible: false }];
    pause(false, &mut paused, &mut items);
    assert!(paused.0);
    assert!(!items[0].is_visible);
}

#[test]
fn frame_timer_fires_on_period() {
    let mut timer = FrameTimer::new(225, 4);
    timer.tick(100);
    assert_eq!((timer.elapsed_ms, timer.frame), (100, 0));
    timer.tick(200);
    // 300 ms crossed the 225 ms period: the timer wraps and the frame steps.
    assert_eq!((timer.elapsed_ms, timer.frame), (75, 1));
}

#[test]
fn frame_index_wraps_at_strip_end() {
    let mut timer = FrameTimer::new(10, 4);
    for _ in 0..4 {
        timer.tick(10);
    }
    assert_eq!(timer.frame, 0);
    timer.tick(10);
    assert_eq!(timer.frame, 1);
}

#[test]
fn camera_starts_at_default_zoom() {
    let camera = PlayerCamera::default();
    assert_eq!(camera.scale_factor, 150);
    let mut transform = Transform2 { translation: Vec2::new(3, 4), scale: Vec2::new(1_000, 1_000) };
    setup_camera(&mut transform, &camera);
    assert_eq!(transform.scale, Vec2::new(150, 150));
    assert_eq!(transform.translation, Vec2::new(3, 4));
}

#[test]
fn camera_follows_player() {
    let mut transform = Transform2 { translation: Vec2::zero(), scale: Vec2::new(150, 150) };
    update_camera(Vec2::new(9_000, -2_000), &mut transform);
    assert_eq!(transform.translation, Vec2::new(9_000, -2_000));
    assert_eq!(transform.scale, Vec2::new(150, 150));
}

#[test]
fn camera_zoom_steps() {
    let mut transform = Transform2 { translation: Vec2::zero(), scale: Vec2::new(150, 150) };
    zoom_camera(&mut transform, 10);
    assert_eq!(transform.scale, Vec2::new(160, 160));
    zoom_camera(&mut transform, -10);
    assert_eq!(transform.scale, Vec2::new(150, 150));
}

#[test]
fn scene_actions_need_a_gamepad() {
    assert_eq!(scene_management(false, true, true), scene_management(false, false, false));
    let action = scene_management(true, true, false);
    assert!(action.save && !action.load);
    let action = scene_management(true, false, true);
    assert!(!action.save && action.load);
}

#[test]
fn startup_config_values() {
    let c = setup();
    assert_eq!(c.window.title, "Heaven Through Violence");
    assert_eq!((c.window.width, c.window.height), (2_000_000, 2_000_000));
    assert_eq!(c.gravity, Vec2::zero());
    assert_eq!((c.placeholder_red, c.placeholder_green, c.placeholder_blue), (700, 700, 700));
    assert_eq!(c.debug_font_size, 70_000);
    assert_eq!((c.debug_color_red, c.debug_color_green, c.debug_color_blue), (0, 0, 0));
    assert!(c.debug_align_flex_end);
    assert_eq!(c.debug_seed_text, "Player Pos: -0.1234567890");
}

#[test]
fn player_spawn_constants() {
    let s = spawn_player();
    assert_eq!(s.sprite_size, Vec2::new(16_000, 23_000));
    assert_eq!((s.grid_columns, s.grid_rows), (4, 1));
    assert_eq!(s.scale, 1_000);
    assert_eq!(s.anim.period_ms, 225);
    assert_eq!(s.anim.frame_count, 4);
    assert_eq!(s.collider_half, Vec2::new(8_000, 11_500));
    assert!(s.lock_rotations);
    assert_eq!(s.player.move_speed, 100_000);
}

#[test]
fn enemy_row_is_spaced_and_random() {
    let enemies = spawn_enemies();
    assert_eq!(enemies.len(), 3);
    let xs: Vec<i64> = enemies.iter().map(|e| e.translation.x).collect();
    assert_eq!(xs, vec![-150_000, 0, 150_000]);
    for e in &enemies {
        assert_eq!(e.translation.y, 300_000);
        assert!((175..300).contains(&e.anim_period_ms));
        assert_eq!(e.linear_damping, 10_000);
        assert!(e.lock_rotations);
    }
}

#[test]
fn debug_text_two_decimals() {
    assert_eq!(debug_ui_update(Vec2::new(1_234, 5_678)), "Player Pos: 1.23, 5.68");
    assert_eq!(debug_ui_update(Vec2::new(0, 0)), "Player Pos: 0.00, 0.00");
    assert_eq!(debug_ui_update(Vec2::new(-1, 2_000)), "Player Pos: -0.00, 2.00");
    assert_eq!(debug_ui_update(Vec2::new(-567, 994)), "Player Pos: -0.57, 0.99");
    assert_eq!(debug_ui_update(Vec2::new(1_000_000, -1_000_000)), "Player Pos: 1000.00, -1000.00");
}

#[test]
fn debug_text_rounding_carries() {
    // 0.996 rounds up to 1.00, the carry running into the whole part;
    // 12.999 likewise becomes 13.00.
    assert_eq!(debug_ui_update(Vec2::new(996, 12_999)), "Player Pos: 1.00, 13.00");
    // A tie at the third decimal rounds away from zero on both signs.
    assert_eq!(debug_ui_update(Vec2::new(565, -565)), "Player Pos: 0.57, -0.57");
}
