use sidescroll::config::GameConfig;
use sidescroll::player::{move_player, move_camera, Position, Vec2i, Velocity};

fn test_config() -> GameConfig {
    GameConfig {
        level_len: 5_000_000_000,
        half_win_w: 640_000_000,
        half_win_h: 360_000_000,
        half_tile: 50_000_000,
        accel_rate: 50,
        max_speed: 10,
        anim_period_ms: 200,
    }
}

fn spawn_pos(cfg: &GameConfig) -> Position {
    Position {
        x: 0,
        y: 3 * cfg.half_tile - cfg.half_win_h,
    }
}

#[test]
fn config_is_valid() {
    assert!(test_config().is_valid());
    let mut bad = test_config();
    bad.half_tile = bad.half_win_w + 1;
    assert!(!bad.is_valid());
}

#[test]
fn one_tick_of_acceleration() {
    // max speed 10 units/s, acceleration 50 units/s^2, at rest, left held
    // for one 50 ms tick: velocity is -2.5 units/s (-2500 milli-units/s).
    let cfg = test_config();
    let mut pos = spawn_pos(&cfg);
    let mut vel = Velocity::new();
    move_player(&cfg, 50, true, false, &mut pos, &mut vel);
    assert_eq!(vel.x, -2500);
    assert_eq!(vel.y, 0);
    assert_eq!(pos.x, -125_000);
}

#[test]
fn speed_never_exceeds_max() {
    let cfg = test_config();
    let mut pos = spawn_pos(&cfg);
    let mut vel = Velocity::new();
    let vmax = cfg.max_speed * 1000;
    for _ in 0..100 {
        move_player(&cfg, 100, false, true, &mut pos, &mut vel);
        assert!(vel.x.abs() <= vmax);
        assert!(vel.y.abs() <= vmax);
    }
    // 50 units/s^2 over 0.1 s adds 5 units/s: the cap is hit on tick 2.
    assert_eq!(vel.x, vmax);
}

#[test]
fn opposed_keys_cancel() {
    let cfg = test_config();
    let mut pos_both = spawn_pos(&cfg);
    let mut vel_both = Velocity { x: 7000, y: 0 };
    let mut pos_neither = pos_both;
    let mut vel_neither = vel_both;
    move_player(&cfg, 100, true, true, &mut pos_both, &mut vel_both);
    move_player(&cfg, 100, false, false, &mut pos_neither, &mut vel_neither);
    assert_eq!(vel_both, vel_neither);
    assert_eq!(pos_both, pos_neither);
}

#[test]
fn deceleration_reaches_exact_zero() {
    let cfg = test_config();
    let mut pos = spawn_pos(&cfg);
    // One 0.05 s tick decelerates by 2500 milli-units/s.
    let mut vel = Velocity { x: 10_000, y: 0 };
    let mut speeds = Vec::new();
    for _ in 0..5 {
        move_player(&cfg, 50, false, false, &mut pos, &mut vel);
        speeds.push(vel.x);
    }
    assert_eq!(speeds, vec![7500, 5000, 2500, 0, 0]);
}

#[test]
fn deceleration_snaps_small_residual_to_zero() {
    let cfg = test_config();
    let mut pos = spawn_pos(&cfg);
    // Speed no larger than one tick's deceleration snaps straight to rest.
    let mut vel = Velocity { x: -2400, y: 0 };
    move_player(&cfg, 50, false, false, &mut pos, &mut vel);
    assert_eq!(vel.x, 0);
}

#[test]
fn wall_stops_position_but_keeps_velocity() {
    let cfg = test_config();
    let x_max = cfg.level_len - (cfg.half_win_w + cfg.half_tile);
    let mut pos = Position { x: x_max, y: spawn_pos(&cfg).y };
    let mut vel = Velocity { x: 10_000, y: 0 };
    move_player(&cfg, 100, false, true, &mut pos, &mut vel);
    // The tentative coordinate leaves the level band, so the horizontal
    // change is discarded while the velocity keeps its value.
    assert_eq!(pos.x, x_max);
    assert_eq!(vel.x, 10_000);
}

#[test]
fn position_stays_in_bounds_over_many_ticks() {
    let cfg = test_config();
    let x_min = cfg.half_tile - cfg.half_win_w;
    let x_max = cfg.level_len - (cfg.half_win_w + cfg.half_tile);
    let mut pos = spawn_pos(&cfg);
    let mut vel = Velocity::new();
    for i in 0..300 {
        let left = i % 11 < 6;
        let right = i % 7 < 3;
        move_player(&cfg, 250, left, right, &mut pos, &mut vel);
        assert!(x_min <= pos.x && pos.x <= x_max);
    }
}

#[test]
fn negative_time_delta_is_clamped() {
    let cfg = test_config();
    let mut pos = spawn_pos(&cfg);
    let mut vel = Velocity { x: 5000, y: 0 };
    move_player(&cfg, -30, false, true, &mut pos, &mut vel);
    // A clamped delta of zero accelerates by nothing and moves nothing.
    assert_eq!(vel.x, 5000);
    assert_eq!(pos.x, 0);
}

#[test]
fn camera_follows_and_clamps() {
    let cfg = test_config();
    let cam_max = cfg.level_len - 2 * cfg.half_win_w;
    let mut cam = Position { x: 0, y: 77 };

    let at_start = Position { x: -400_000_000, y: 0 };
    move_camera(&cfg, &at_start, &mut cam);
    assert_eq!(cam.x, 0);

    let mid = Position { x: 1_234_567, y: 0 };
    move_camera(&cfg, &mid, &mut cam);
    assert_eq!(cam.x, 1_234_567);

    let far_right = Position { x: cfg.level_len, y: 0 };
    move_camera(&cfg, &far_right, &mut cam);
    assert_eq!(cam.x, cam_max);

    // The vertical framing is fixed.
    assert_eq!(cam.y, 77);
}

#[test]
fn velocity_from_vector() {
    let v = Velocity::from(Vec2i { x: 3, y: -4 });
    assert_eq!(v.x, 3);
    assert_eq!(v.y, -4);
    let z = Velocity::new();
    assert_eq!(z, Velocity { x: 0, y: 0 });
}
