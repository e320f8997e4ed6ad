use sidescroll::player::{animate_player, AnimationTimer, PlayerSheet, Velocity};

#[test]
fn sheet_must_have_frames() {
    assert!(PlayerSheet::new(0).is_none());
    let sheet = PlayerSheet::new(4).expect("a four-frame sheet is valid");
    assert_eq!(sheet.frame_count, 4);
}

#[test]
fn frame_sequence_while_moving() {
    // Four frames, 0.2 s period, continuous motion, nine 0.1 s ticks:
    // the frame advances on each tick whose cumulative time crosses a
    // 0.2 s boundary, giving 0,0,1,1,2,2,3,3,0.
    let moving = Velocity { x: 2500, y: 0 };
    let mut timer = AnimationTimer { period_ms: 200, elapsed_ms: 0 };
    let mut frame: usize = 0;
    let mut seen = Vec::new();
    for _ in 0..9 {
        animate_player(4, 100, &moving, &mut timer, &mut frame);
        seen.push(frame);
    }
    assert_eq!(seen, vec![0, 0, 1, 1, 2, 2, 3, 3, 0]);
}

#[test]
fn frame_holds_at_rest_even_with_residual_time() {
    let at_rest = Velocity { x: 0, y: 0 };
    let mut timer = AnimationTimer { period_ms: 200, elapsed_ms: 150 };
    let mut frame: usize = 2;
    animate_player(4, 100, &at_rest, &mut timer, &mut frame);
    // Neither the frame nor the accumulated time changes while at rest.
    assert_eq!(frame, 2);
    assert_eq!(timer.elapsed_ms, 150);
}

#[test]
fn residual_time_resumes_after_motion_returns() {
    let moving = Velocity { x: 1, y: 0 };
    let mut timer = AnimationTimer { period_ms: 200, elapsed_ms: 150 };
    let mut frame: usize = 3;
    animate_player(4, 100, &moving, &mut timer, &mut frame);
    // 150 + 100 exceeds the period: one firing, frame wraps 3 -> 0, and
    // the timer keeps the overshoot.
    assert_eq!(frame, 0);
    assert_eq!(timer.elapsed_ms, 50);
}

#[test]
fn one_firing_per_tick_even_for_a_huge_delta() {
    let moving = Velocity { x: 1, y: 0 };
    let mut timer = AnimationTimer { period_ms: 200, elapsed_ms: 0 };
    let mut frame: usize = 0;
    animate_player(4, 950, &moving, &mut timer, &mut frame);
    // The frame advances by exactly one per tick, however much time passed.
    assert_eq!(frame, 1);
    assert_eq!(timer.elapsed_ms, 150);
}
