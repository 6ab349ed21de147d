use bounce::label::{fps_label, label_anchor};
use bounce::motion::{Ball, SCALE, VEL_LIMIT, X_LIMIT, Y_LIMIT};
use bounce::sampler::tick;
use bounce::state::SimState;

fn ball(x: i64, y: i64, dx: i64, dy: i64) -> Ball {
    Ball { x, y, dx, dy }
}

#[test]
fn speed_magnitude_is_preserved() {
    let cases = [
        ball(10 * SCALE, 10 * SCALE, -3 * SCALE, 7 * SCALE),
        ball(0, 0, -3 * SCALE, -9 * SCALE),
        ball(799 * SCALE, 599 * SCALE, 5 * SCALE, 5 * SCALE),
        ball(400 * SCALE, 300 * SCALE, 0, 0),
    ];
    for c in cases {
        let mut b = ball(c.x, c.y, c.dx, c.dy);
        b.advance(X_LIMIT, Y_LIMIT);
        assert_eq!(b.dx.abs(), c.dx.abs());
        assert_eq!(b.dy.abs(), c.dy.abs());
    }
}

#[test]
fn reflection_at_lower_bound() {
    // position.x = 0.0, velocity.x = -3.0: the step lands on -3.0, which
    // is past the lower bound, so the x velocity flips to +3.0.
    let mut b = ball(0, 10 * SCALE, -3 * SCALE, 0);
    b.advance(X_LIMIT, Y_LIMIT);
    assert_eq!(b.x, -3 * SCALE);
    assert_eq!(b.dx, 3 * SCALE);
    assert_eq!(b.y, 10 * SCALE);
    assert_eq!(b.dy, 0);
}

#[test]
fn reflection_at_upper_bounds() {
    let mut b = ball(799 * SCALE, 599 * SCALE, 2 * SCALE, 4 * SCALE);
    b.advance(X_LIMIT, Y_LIMIT);
    assert_eq!(b.x, 801 * SCALE);
    assert_eq!(b.dx, -2 * SCALE);
    assert_eq!(b.y, 603 * SCALE);
    assert_eq!(b.dy, -4 * SCALE);
}

#[test]
fn interior_step_keeps_velocity() {
    // A step that lands strictly inside (0, 800) x (0, 600) leaves the
    // velocity exactly as it was.
    let mut b = ball(400 * SCALE, 300 * SCALE, -7 * SCALE, 9 * SCALE);
    b.advance(X_LIMIT, Y_LIMIT);
    assert_eq!(b.x, 393 * SCALE);
    assert_eq!(b.y, 309 * SCALE);
    assert_eq!(b.dx, -7 * SCALE);
    assert_eq!(b.dy, 9 * SCALE);
}

#[test]
fn lingering_ball_renegates_every_frame() {
    // Out of bounds with the velocity pointing inward but too small to
    // re-enter: the velocity is renegated on every frame, so the ball
    // oscillates in place instead of coming back in.
    let mut b = ball(-5 * SCALE, 300 * SCALE, 2 * SCALE, 0);
    b.advance(X_LIMIT, Y_LIMIT);
    assert_eq!(b.x, -3 * SCALE);
    assert_eq!(b.dx, -2 * SCALE);
    b.advance(X_LIMIT, Y_LIMIT);
    assert_eq!(b.x, -5 * SCALE);
    assert_eq!(b.dx, 2 * SCALE);
}

#[test]
fn zero_velocity_on_boundary_stays_put() {
    let mut b = ball(0, 0, 0, 0);
    b.advance(X_LIMIT, Y_LIMIT);
    assert_eq!(b.x, 0);
    assert_eq!(b.y, 0);
    assert_eq!(b.dx, 0);
    assert_eq!(b.dy, 0);
}

#[test]
fn counter_wraps_with_one_emission_on_the_sixtieth_call() {
    let mut counter: u8 = 0;
    let mut emissions: u32 = 0;
    let mut emission_call: u32 = 0;
    for call in 1u32..=60 {
        let (next, label) = tick(counter, 5996);
        counter = next;
        if let Some(text) = label {
            emissions += 1;
            emission_call = call;
            assert_eq!(text, "60.0 FPS");
        }
    }
    assert_eq!(counter, 0);
    assert_eq!(emissions, 1);
    assert_eq!(emission_call, 60);
}

#[test]
fn label_from_hundredths_rounds_to_one_decimal() {
    // 59.96 measured frames per second round to the text "60.0 FPS".
    assert_eq!(fps_label(5996), "60.0 FPS");
    assert_eq!(fps_label(0), "0.0 FPS");
    assert_eq!(fps_label(44), "0.4 FPS");
    assert_eq!(fps_label(45), "0.5 FPS");
    assert_eq!(fps_label(55), "0.6 FPS");
    assert_eq!(fps_label(5994), "59.9 FPS");
    assert_eq!(fps_label(12345), "123.5 FPS");
    assert_eq!(fps_label(u32::MAX), "42949673.0 FPS");
}

#[test]
fn tick_refreshes_only_at_the_boundary() {
    let (next, label) = tick(59, 5996);
    assert_eq!(next, 0);
    assert_eq!(label.unwrap(), "60.0 FPS");
    let (next, label) = tick(0, 5996);
    assert_eq!(next, 1);
    assert!(label.is_none());
    let (next, label) = tick(58, 5996);
    assert_eq!(next, 59);
    assert!(label.is_none());
}

#[test]
fn end_to_end_three_steps_reflect_at_the_left_wall() {
    // Start at (10.0, 10.0) with velocity (-5.0, 0.0). The second step
    // lands exactly on x = 0.0, which already reflects, so the third
    // step moves back inside to x = 5.0 with velocity.x = +5.0.
    let mut s = SimState::new(-5 * SCALE, 0);
    assert_eq!(s.ball.x, 10 * SCALE);
    assert_eq!(s.ball.y, 10 * SCALE);
    for _ in 0..3 {
        let changed = s.update(6000);
        assert!(!changed);
    }
    assert_eq!(s.ball.x, 5 * SCALE);
    assert_eq!(s.ball.y, 10 * SCALE);
    assert_eq!(s.ball.dx, 5 * SCALE);
    assert_eq!(s.ball.dy, 0);
    assert_eq!(s.frames, 3);
    assert_eq!(s.label, "0 FPS");
}

#[test]
fn sixty_updates_refresh_the_label_once() {
    let mut s = SimState::new(0, 0);
    assert_eq!(s.label, "0 FPS");
    let mut changes: u32 = 0;
    let mut change_call: u32 = 0;
    for call in 1u32..=60 {
        if s.update(5996) {
            changes += 1;
            change_call = call;
        }
    }
    assert_eq!(changes, 1);
    assert_eq!(change_call, 60);
    assert_eq!(s.frames, 0);
    assert_eq!(s.label, "60.0 FPS");
}

#[test]
fn random_start_is_well_formed_and_in_range() {
    for _ in 0..100 {
        let s = SimState::new_random();
        assert_eq!(s.ball.x, 10 * SCALE);
        assert_eq!(s.ball.y, 10 * SCALE);
        assert!(-VEL_LIMIT <= s.ball.dx && s.ball.dx <= VEL_LIMIT);
        assert!(-VEL_LIMIT <= s.ball.dy && s.ball.dy <= VEL_LIMIT);
        assert_eq!(s.frames, 0);
        assert!(s.is_well_formed());
    }
}

#[test]
fn label_anchor_offsets_inward_from_the_corner() {
    // A 100 x 20 pixel label anchors at (800 - 50 - 5, 600 - 10 - 5).
    assert_eq!(label_anchor(100, 20), (745 * SCALE, 585 * SCALE));
    assert_eq!(label_anchor(0, 0), (795 * SCALE, 595 * SCALE));
}
