use platformer_core::gravity::KinematicGravity;
use platformer_core::input::{InputAction, InputSnapshot};
use platformer_core::math::{dist, isqrt, muldiv, norm_or_zero, sat_add, spring_pow, Vec2, LIMIT};
use platformer_core::player::Player;
use platformer_core::timer::Timer;
use platformer_core::velocity::{kinematic_velocity, kinematic_velocity_collision_check,
    CollisionOutcome, KinematicVelocity, LENIENCY};

fn outcome_with(desired: Vec2, effective: Vec2, grounded: bool) -> CollisionOutcome {
    CollisionOutcome { desired_translation: desired, effective_translation: effective, grounded }
}

/// Zero energy on block: an axis where requested and applied displacement
/// diverge by more than the leniency carries exactly zero velocity into
/// the next integration.
#[test]
fn blocked_axis_zeroed() {
    let mut vel = KinematicVelocity { x: 500_000, y: -300_000 };
    let o = Some(outcome_with(Vec2 { x: 5_000, y: 0 }, Vec2 { x: 0, y: 0 }, false));
    kinematic_velocity_collision_check(&mut vel, &o);
    assert_eq!(vel.x, 0);
    assert_eq!(vel.y, -300_000);
}

#[test]
fn leniency_boundary_is_strict() {
    // A divergence of exactly the leniency is tolerated; one more is not.
    let mut vel = KinematicVelocity { x: 500_000, y: 500_000 };
    let o = Some(outcome_with(
        Vec2 { x: LENIENCY, y: LENIENCY + 1 },
        Vec2 { x: 0, y: 0 },
        false,
    ));
    kinematic_velocity_collision_check(&mut vel, &o);
    assert_eq!(vel.x, 500_000);
    assert_eq!(vel.y, 0);
}

#[test]
fn integrator_applies_transform_without_controller() {
    let mut vel = KinematicVelocity { x: 200_000, y: -100_000 };
    let mut transform = Vec2 { x: 1_000, y: 2_000 };
    let request = kinematic_velocity(&mut vel, &mut transform, false, &None, 100);
    assert_eq!(request, None);
    // displacement = velocity * 0.1 s
    assert_eq!(transform, Vec2 { x: 21_000, y: -8_000 });
}

#[test]
fn integrator_requests_with_controller() {
    let mut vel = KinematicVelocity { x: 200_000, y: -100_000 };
    let mut transform = Vec2 { x: 1_000, y: 2_000 };
    let request = kinematic_velocity(&mut vel, &mut transform, true, &None, 100);
    assert_eq!(request, Some(Vec2 { x: 20_000, y: -10_000 }));
    assert_eq!(transform, Vec2 { x: 1_000, y: 2_000 });
}

#[test]
fn muldiv_truncates_toward_zero() {
    assert_eq!(muldiv(-7, 1, 2), -3);
    assert_eq!(muldiv(7, 1, 2), 3);
    assert_eq!(muldiv(7, -1, 2), -3);
    assert_eq!(muldiv(250_000, 100, 200), 125_000);
}

#[test]
fn muldiv_saturates_at_limit() {
    assert_eq!(muldiv(LIMIT, 2_000, 1_000), LIMIT);
    assert_eq!(muldiv(-LIMIT, 2_000, 1_000), -LIMIT);
}

#[test]
fn sat_add_saturates() {
    assert_eq!(sat_add(LIMIT, 1), LIMIT);
    assert_eq!(sat_add(-LIMIT, -1), -LIMIT);
    assert_eq!(sat_add(1, 2), 3);
}

#[test]
fn isqrt_exact_and_floor() {
    assert_eq!(isqrt(0), 0);
    assert_eq!(isqrt(1), 1);
    assert_eq!(isqrt(2), 1);
    assert_eq!(isqrt(4), 2);
    assert_eq!(isqrt(10_000_000), 3_162);
    assert_eq!(isqrt(u64::MAX as u128 * u64::MAX as u128), u64::MAX);
}

#[test]
fn dist_euclidean() {
    assert_eq!(dist(Vec2 { x: 0, y: 0 }, Vec2 { x: 3_000, y: 4_000 }), 5_000);
    assert_eq!(dist(Vec2 { x: 0, y: 0 }, Vec2 { x: 1, y: 1 }), 1);
    assert_eq!(dist(Vec2 { x: -2_000, y: 0 }, Vec2 { x: 2_000, y: 0 }), 4_000);
}

#[test]
fn norm_gives_milli_direction() {
    assert_eq!(norm_or_zero(Vec2 { x: 3_000, y: 4_000 }), Vec2 { x: 600, y: 800 });
    assert_eq!(norm_or_zero(Vec2 { x: 0, y: 0 }), Vec2 { x: 0, y: 0 });
    assert_eq!(norm_or_zero(Vec2 { x: -5_000, y: 0 }), Vec2 { x: -1_000, y: 0 });
}

#[test]
fn spring_pow_values() {
    // 10 units to the 13/8 in fixed point.
    assert_eq!(spring_pow(10_000), 42_149);
    assert_eq!(spring_pow(0), 0);
    // The curve grows with the distance excess.
    assert!(spring_pow(20_000) > spring_pow(10_000));
}

#[test]
fn timer_counts_up_and_stops() {
    let mut t = Timer::new(200);
    assert!(!t.finished());
    t.tick(150);
    assert_eq!(t.remaining_ms(), 50);
    t.tick(500);
    assert!(t.finished());
    assert_eq!(t.elapsed_ms, 200);
    t.reset();
    assert!(!t.finished());
    t.finish();
    assert!(t.finished());
}

#[test]
fn input_snapshot_query_surface() {
    let input = InputSnapshot {
        run: -400,
        jump_pressed: true,
        jump_released: true,
        down_pressed: true,
        ..InputSnapshot::neutral()
    };
    assert!(input.pressed(InputAction::Jump));
    assert!(input.pressed(InputAction::Down));
    assert!(!input.pressed(InputAction::Grapple));
    assert!(!input.just_pressed(InputAction::Jump));
    assert!(input.released(InputAction::Jump));
    assert!(!input.released(InputAction::Land));
    assert_eq!(input.clamped_value(InputAction::Run), -400);
    assert_eq!(input.clamped_value(InputAction::Jump), 0);
}

/// A bare actor with no subsystems: the tick only integrates.
#[test]
fn bare_actor_tick_integrates_only() {
    let gravity = KinematicGravity(Vec2 { x: 0, y: -1_000_000 });
    let mut p = Player::new(Vec2 { x: 0, y: 0 }, false);
    p.velocity = KinematicVelocity { x: 100_000, y: 0 };
    let input = InputSnapshot::neutral();
    let points = Vec::new();
    let r = p.tick(&gravity, &input, None, &points, None, None, 100);
    assert_eq!(r.request, None);
    assert_eq!(p.velocity, KinematicVelocity { x: 100_000, y: 0 });
    assert_eq!(p.transform, Vec2 { x: 10_000, y: 0 });
}
