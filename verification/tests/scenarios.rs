use platformer_core::gravity::{kinematic_gravity, KinematicGravity, KinematicGravityUser};
use platformer_core::horizontal_movement::{horizontal_movement, HorizontalMovement};
use platformer_core::input::InputSnapshot;
use platformer_core::jumper::Jumper;
use platformer_core::state_machine::{GroundedState, InAirState};
use platformer_core::wall_movement::{WallMovement, YRange};
use platformer_core::math::Vec2;
use platformer_core::player::Player;
use platformer_core::velocity::{CollisionOutcome, KinematicVelocity};

fn grounded_outcome() -> CollisionOutcome {
    CollisionOutcome {
        desired_translation: Vec2 { x: 0, y: 0 },
        effective_translation: Vec2 { x: 0, y: 0 },
        grounded: true,
    }
}

fn movement_constants() -> HorizontalMovement {
    HorizontalMovement {
        max_speed: 250_000,
        acceleration_time: 200,
        deccelration_time: 400,
        turn_around_multi: 1_500,
        air_control_multi: 700,
        air_friction_multi: 200,
    }
}

/// Actor at rest, grounded, gravity (0, -1000) units/s², dt = 0.1 s: one
/// tick leaves the vertical velocity at -100 units/s and the position
/// untouched (integration applies next tick, through the collision layer).
#[test]
fn scenario_gravity_tick() {
    let _user = KinematicGravityUser;
    let gravity = KinematicGravity(Vec2 { x: 0, y: -1_000_000 });
    let mut vel = KinematicVelocity { x: 0, y: 0 };
    kinematic_gravity(&mut vel, &gravity, None, 100);
    assert_eq!(vel.x, 0);
    assert_eq!(vel.y, -100_000);
}

#[test]
fn scenario_gravity_whole_tick_keeps_position() {
    let gravity = KinematicGravity(Vec2 { x: 0, y: -1_000_000 });
    let mut player = Player::new(Vec2 { x: 0, y: 100_000 }, true);
    player.gravity_user = true;
    let input = InputSnapshot::neutral();
    let points = Vec::new();
    let r = player.tick(&gravity, &input, Some(grounded_outcome()), &points, None, None, 100);
    assert_eq!(player.velocity.y, -100_000);
    assert_eq!(player.transform, Vec2 { x: 0, y: 100_000 });
    // The displacement request carries the new velocity over dt.
    assert_eq!(r.request, Some(Vec2 { x: 0, y: -10_000 }));
}

/// The per-actor gravity scale defaults to one when unset and otherwise
/// multiplies the accumulated acceleration.
#[test]
fn gravity_scale_applied() {
    let gravity = KinematicGravity(Vec2 { x: 0, y: -1_000_000 });
    let mut vel = KinematicVelocity { x: 0, y: 0 };
    // Half gravity: 500 thousandths.
    kinematic_gravity(&mut vel, &gravity, Some(500), 100);
    assert_eq!(vel.y, -50_000);
    // Unset scale behaves as a scale of exactly one.
    let mut vel_default = KinematicVelocity { x: 0, y: 0 };
    let mut vel_unit = KinematicVelocity { x: 0, y: 0 };
    kinematic_gravity(&mut vel_default, &gravity, None, 100);
    kinematic_gravity(&mut vel_unit, &gravity, Some(1_000), 100);
    assert_eq!(vel_default, vel_unit);
}

/// Full right input, maxSpeed 250, accelTime 0.2 s, dt 0.1 s, from rest:
/// the horizontal velocity is 125 units/s after one tick.
#[test]
fn scenario_accelerate_first_tick() {
    let movement = movement_constants();
    let mut vel = KinematicVelocity { x: 0, y: 0 };
    horizontal_movement(&mut vel, &movement, &grounded_outcome(), 1_000, 100);
    assert_eq!(vel.x, 125_000);
    assert_eq!(vel.y, 0);
}

/// Jump with jumpForce 400: the tick the state machine orders the jump,
/// the vertical velocity grows by exactly 400 units/s and the horizontal
/// velocity carries over.
#[test]
fn scenario_jump_force() {
    let mut jumper = Jumper::new(400_000, 350, 1_250, 175, 200);
    let v = jumper.jump(Vec2 { x: 30_000, y: 0 });
    assert_eq!(v, Vec2 { x: 30_000, y: 400_000 });
    assert!(jumper.can_release);
    // Both windows are consumed, so the jump cannot re-trigger at once.
    assert!(!jumper.should_jump());
}

/// Speed cap: under constant maximal input the horizontal velocity climbs
/// to maxSpeed and never exceeds it.
#[test]
fn speed_cap_convergence() {
    let movement = movement_constants();
    let outcome = grounded_outcome();
    let mut vel = KinematicVelocity { x: 0, y: 0 };
    for _ in 0..50 {
        horizontal_movement(&mut vel, &movement, &outcome, 1_000, 100);
        assert!(vel.x <= movement.max_speed);
    }
    assert_eq!(vel.x, movement.max_speed);
}

/// Deceleration stops exactly at zero instead of oscillating around rest.
#[test]
fn decelerate_clamps_at_zero() {
    let movement = movement_constants();
    let outcome = grounded_outcome();
    let mut vel = KinematicVelocity { x: 30_000, y: 0 };
    // One grounded no-input tick removes maxSpeed * dt / deccelTime
    // = 62.5 units/s; from 30 units/s that crosses zero and clamps.
    horizontal_movement(&mut vel, &movement, &outcome, 0, 100);
    assert_eq!(vel.x, 0);
    horizontal_movement(&mut vel, &movement, &outcome, 0, 100);
    assert_eq!(vel.x, 0);
}

/// The jump through the whole pipeline: a press while grounded makes the
/// state machine order the jump at the end of the tick, and the next tick
/// executes it with the full jump force, handing the ground axis off to
/// air-axis Rising.
#[test]
fn scenario_jump_through_state_machine() {
    let gravity = KinematicGravity(Vec2 { x: 0, y: 0 });
    let mut player = Player::new(Vec2 { x: 0, y: -25_000 }, true);
    player.state.ground = Some(GroundedState::Idle);
    player.jumper = Some(Jumper::new(400_000, 350, 1_250, 175, 200));
    player.wall = Some(WallMovement::new(
        Vec2 { x: 450_000, y: 350_000 },
        YRange { low: -20_000, high: 20_000 },
        250,
        200,
    ));
    let points = Vec::new();
    let press = InputSnapshot { jump_pressed: true, jump_just_pressed: true,
        ..InputSnapshot::neutral() };
    player.tick(&gravity, &press, Some(grounded_outcome()), &points, None, None, 100);
    assert_eq!(player.state.ground, Some(GroundedState::Jumping));
    assert_eq!(player.velocity.y, 0);

    let held = InputSnapshot { jump_pressed: true, ..InputSnapshot::neutral() };
    player.tick(&gravity, &held, Some(grounded_outcome()), &points, None, None, 100);
    assert_eq!(player.velocity.y, 400_000);
    assert_eq!(player.state.ground, None);
    assert_eq!(player.state.air, Some(InAirState::Rising));
}

/// A turn-around step against the current direction is allowed to
/// overshoot briefly; the cap only rejects steps along the direction
/// already travelled.
#[test]
fn turn_around_applies_turn_multiplier() {
    let movement = movement_constants();
    let outcome = grounded_outcome();
    let mut vel = KinematicVelocity { x: 250_000, y: 0 };
    horizontal_movement(&mut vel, &movement, &outcome, -1_000, 100);
    // Deceleration first: 250 - 62.5 = 187.5 units/s. Then the reversed
    // aim is scaled by the turn-around multiplier 1.5:
    // add = -250 * 1.5 / 0.2 * 0.1 = -187.5; the result crosses to 0.
    assert_eq!(vel.x, 0);
}
