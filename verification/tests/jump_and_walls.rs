use platformer_core::input::InputSnapshot;
use platformer_core::jumper::{jumper, jumper_timers, jumping, Jumper};
use platformer_core::math::Vec2;
use platformer_core::state_machine::{GroundedState, WallState};
use platformer_core::timer::Timer;
use platformer_core::velocity::{CollisionOutcome, KinematicVelocity};
use platformer_core::wall_movement::{coyote_timer, get_walls, probe_request, wall_movement,
    SidedTimer, Wall, WallHit, WallMovement, YRange};

fn outcome(grounded: bool) -> CollisionOutcome {
    CollisionOutcome {
        desired_translation: Vec2 { x: 0, y: 0 },
        effective_translation: Vec2 { x: 0, y: 0 },
        grounded,
    }
}

fn test_jumper() -> Jumper {
    Jumper::new(400_000, 350, 1_250, 175, 200)
}

fn test_wall_mover() -> WallMovement {
    WallMovement::new(
        Vec2 { x: 450_000, y: 350_000 },
        YRange { low: -20_000, high: 20_000 },
        250,
        200,
    )
}

/// Jump grace windows: a press buffered up to the jump-buffer duration
/// before landing still jumps; a press up to the coyote duration after
/// leaving the ground still jumps; outside both windows no jump occurs.
#[test]
fn jump_buffer_window_honoured_on_landing() {
    let mut j = test_jumper();
    let mut vel = KinematicVelocity { x: 0, y: -200_000 };
    // Airborne press: buffer restarts; the ground was left long ago.
    j.coyote_time = Timer { duration_ms: 175, elapsed_ms: 175 };
    let press = InputSnapshot { jump_just_pressed: true, ..InputSnapshot::neutral() };
    jumper_timers(&mut vel, &mut j, None, &press, &outcome(false), 100);
    assert!(!j.should_jump());
    // Landing 100 ms after the press: the buffer (200 ms) still holds the
    // press, and the ground resets the coyote window.
    let neutral = InputSnapshot::neutral();
    jumper_timers(&mut vel, &mut j, Some(GroundedState::Idle), &neutral, &outcome(true), 100);
    assert!(j.should_jump());
}

#[test]
fn jump_buffer_window_expires() {
    let mut j = test_jumper();
    let mut vel = KinematicVelocity { x: 0, y: -200_000 };
    j.coyote_time = Timer { duration_ms: 175, elapsed_ms: 175 };
    let press = InputSnapshot { jump_just_pressed: true, ..InputSnapshot::neutral() };
    jumper_timers(&mut vel, &mut j, None, &press, &outcome(false), 100);
    // 250 ms pass before the landing: the 200 ms buffer has closed.
    let neutral = InputSnapshot::neutral();
    jumper_timers(&mut vel, &mut j, None, &neutral, &outcome(false), 250);
    jumper_timers(&mut vel, &mut j, Some(GroundedState::Idle), &neutral, &outcome(true), 0);
    assert!(!j.should_jump());
}

#[test]
fn coyote_window_honoured_after_leaving_ground() {
    let mut j = test_jumper();
    let mut vel = KinematicVelocity { x: 0, y: 0 };
    let neutral = InputSnapshot::neutral();
    // Standing on the ground holds the coyote window open.
    jumper_timers(&mut vel, &mut j, Some(GroundedState::Idle), &neutral, &outcome(true), 100);
    assert_eq!(j.coyote_time.elapsed_ms, 0);
    // 100 ms after walking off the ledge (coyote window 175 ms) a press
    // still makes the jump eligible.
    let press = InputSnapshot { jump_just_pressed: true, ..InputSnapshot::neutral() };
    jumper_timers(&mut vel, &mut j, None, &press, &outcome(false), 100);
    assert!(j.should_jump());
    // Another 100 ms and the coyote window has closed.
    jumper_timers(&mut vel, &mut j, None, &neutral, &outcome(false), 100);
    assert!(!j.should_jump());
}

/// Variable height: releasing the jump mid-ascent cuts the remaining
/// upward velocity by the release multiplier exactly once per jump.
#[test]
fn release_cut_fires_once_per_jump() {
    let mut j = test_jumper();
    j.can_release = true;
    let mut vel = KinematicVelocity { x: 0, y: 300_000 };
    let release = InputSnapshot { jump_released: true, ..InputSnapshot::neutral() };
    jumper_timers(&mut vel, &mut j, None, &release, &outcome(false), 16);
    assert_eq!(vel.y, 105_000); // 300 * 0.35
    assert!(!j.can_release);
    // A second release tick has no further effect: the latch is disarmed.
    jumper_timers(&mut vel, &mut j, None, &release, &outcome(false), 16);
    assert_eq!(vel.y, 105_000);
    // The next jump re-arms the latch.
    let v = j.jump(Vec2 { x: 0, y: vel.y });
    assert!(j.can_release);
    assert_eq!(v.y, 505_000);
}

#[test]
fn release_cut_needs_ascent() {
    let mut j = test_jumper();
    j.can_release = true;
    let mut vel = KinematicVelocity { x: 0, y: -50_000 };
    let release = InputSnapshot { jump_released: true, ..InputSnapshot::neutral() };
    jumper_timers(&mut vel, &mut j, None, &release, &outcome(false), 16);
    // Falling: no cut, and the latch stays armed.
    assert_eq!(vel.y, -50_000);
    assert!(j.can_release);
}

#[test]
fn ground_jump_fires_on_jumping_state() {
    let mut j = test_jumper();
    let mut w = test_wall_mover();
    let mut vel = KinematicVelocity { x: 10_000, y: 0 };
    jumping(&mut j, &mut w, &mut vel, Some(GroundedState::Jumping), None);
    assert_eq!(vel.y, 400_000);
    assert_eq!(vel.x, 10_000);
    assert!(j.can_release);
}

#[test]
fn walljump_flips_away_from_wall() {
    let mut j = test_jumper();
    let mut w = test_wall_mover();
    // A wall on the left was remembered by the coyote timer.
    w.coyote_time = SidedTimer { timer: Timer { duration_ms: 200, elapsed_ms: 0 }, side: -1 };
    let mut vel = KinematicVelocity { x: 0, y: 0 };
    jumping(&mut j, &mut w, &mut vel, None, Some(WallState::Jumping));
    assert_eq!(vel.x, 450_000); // pushed right, away from the left wall
    assert_eq!(vel.y, 350_000);
    assert!(j.can_release);
    assert!(w.coyote_time.timer.elapsed_ms >= w.coyote_time.timer.duration_ms);
}

#[test]
fn jumper_system_runs_timers_then_jump() {
    let mut j = test_jumper();
    let mut w = test_wall_mover();
    let mut vel = KinematicVelocity { x: 0, y: 0 };
    let neutral = InputSnapshot::neutral();
    jumper(&mut vel, &mut j, &mut w, Some(GroundedState::Jumping), None, &neutral,
        &outcome(true), 100);
    assert_eq!(vel.y, 400_000);
}

#[test]
fn should_walljump_uses_wall_coyote() {
    let j = test_jumper();
    let mut w = test_wall_mover();
    assert!(j.should_walljump(&w));
    w.coyote_time.timer.elapsed_ms = 200;
    assert!(!j.should_walljump(&w));
}

#[test]
fn wall_detector_prefers_right_cast() {
    let mut w = test_wall_mover();
    let right = WallHit { entity: 7, witness_x: 30_000 };
    let left = WallHit { entity: 8, witness_x: -30_000 };
    get_walls(&mut w, 0, false, Some(right), Some(left));
    assert_eq!(w.current_wall, Some(Wall { entity: 7, side: 1 }));
    // Only the left cast hits: the wall is on the left.
    get_walls(&mut w, 0, false, None, Some(left));
    assert_eq!(w.current_wall, Some(Wall { entity: 8, side: -1 }));
    // Grounded clears the wall regardless of hits.
    get_walls(&mut w, 0, true, Some(right), Some(left));
    assert_eq!(w.current_wall, None);
}

#[test]
fn wall_coyote_resets_while_wall_held() {
    let mut w = test_wall_mover();
    w.current_wall = Some(Wall { entity: 3, side: 1 });
    w.coyote_time.timer.elapsed_ms = 150;
    coyote_timer(&mut w, 100);
    assert_eq!(w.coyote_time.timer.elapsed_ms, 0);
    assert_eq!(w.coyote_time.side, 1);
    // Without a wall the timer counts up and the side is kept.
    w.current_wall = None;
    coyote_timer(&mut w, 120);
    assert_eq!(w.coyote_time.timer.elapsed_ms, 120);
    assert_eq!(w.coyote_time.side, 1);
}

#[test]
fn wall_movement_tick_detects_then_counts() {
    let mut w = test_wall_mover();
    wall_movement(&mut w, 0, false, Some(WallHit { entity: 5, witness_x: 20_000 }), None, 100);
    assert_eq!(w.current_wall, Some(Wall { entity: 5, side: 1 }));
    assert_eq!(w.coyote_time.timer.elapsed_ms, 0);
    assert_eq!(w.coyote_time.side, 1);
}

#[test]
fn probe_request_centres_on_offset_window() {
    let w = test_wall_mover();
    let r = probe_request(&w, Vec2 { x: 1_000, y: 2_000 }, None);
    assert_eq!(r.origin, Vec2 { x: 1_000, y: 2_000 }); // symmetric window: no offset
    assert_eq!(r.half_extents, Vec2 { x: 12_500, y: 25_000 });
    assert_eq!(r.max_toi, 250);
    let r2 = probe_request(&w, Vec2 { x: 0, y: 0 }, Some(Vec2 { x: 30_000, y: 90_000 }));
    // With a sprite, the width comes from the sprite and the height from
    // the offset window.
    assert_eq!(r2.half_extents, Vec2 { x: 15_000, y: 20_000 });
}
