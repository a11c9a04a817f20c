use platformer_core::grappler::Grappler;
use platformer_core::input::InputSnapshot;
use platformer_core::jumper::Jumper;
use platformer_core::lander::{get_landing_dir, get_landing_multi, lander, should_land, Lander};
use platformer_core::math::Vec2;
use platformer_core::state_machine::{can_grapple_trigger, falling_trigger, grappling_trigger,
    grounded_trigger, jump_trigger, machine_step, walking_trigger, GroundedState, InAirState,
    MotionState, WallState};
use platformer_core::terminal_velocity::{terminal_velocity, TerminalVelocity};
use platformer_core::velocity::{CollisionOutcome, KinematicVelocity};
use platformer_core::wall_movement::{Wall, WallMovement, YRange};

fn outcome(grounded: bool) -> CollisionOutcome {
    CollisionOutcome {
        desired_translation: Vec2 { x: 0, y: 0 },
        effective_translation: Vec2 { x: 0, y: 0 },
        grounded,
    }
}

fn outcome_with(desired: Vec2, effective: Vec2, grounded: bool) -> CollisionOutcome {
    CollisionOutcome { desired_translation: desired, effective_translation: effective, grounded }
}

fn idle_state() -> MotionState {
    MotionState { ground: Some(GroundedState::Idle), air: None, wall: None }
}

fn airborne(air: InAirState) -> MotionState {
    MotionState { ground: None, air: Some(air), wall: None }
}

fn fresh_jumper() -> Jumper {
    Jumper::new(400_000, 350, 1_250, 175, 200)
}

fn no_jump_jumper() -> Jumper {
    let mut j = fresh_jumper();
    j.jump_buffer.elapsed_ms = 200;
    j
}

fn test_wall_mover() -> WallMovement {
    WallMovement::new(
        Vec2 { x: 450_000, y: 350_000 },
        YRange { low: -20_000, high: 20_000 },
        250,
        200,
    )
}

fn test_terminal() -> TerminalVelocity {
    TerminalVelocity::new(-1_150_000, 1_500, 100)
}

fn test_lander() -> Lander {
    Lander::new(300, Vec2 { x: 0, y: 0 }, 1_000, 500_000, -500_000)
}

#[test]
fn machine_landing_moves_air_to_idle() {
    let vel = KinematicVelocity { x: 0, y: 0 };
    let st = machine_step(airborne(InAirState::Falling), &vel, Some(&outcome(true)),
        Some(&no_jump_jumper()), None);
    assert_eq!(st.ground, Some(GroundedState::Idle));
    assert_eq!(st.air, None);
}

#[test]
fn machine_walking_needs_speed() {
    let fast = KinematicVelocity { x: 6_000, y: 0 };
    let st = machine_step(idle_state(), &fast, Some(&outcome(true)), Some(&no_jump_jumper()),
        None);
    assert_eq!(st.ground, Some(GroundedState::Walking));
    let slow = KinematicVelocity { x: 5_000, y: 0 };
    let st2 = machine_step(idle_state(), &slow, Some(&outcome(true)), Some(&no_jump_jumper()),
        None);
    assert_eq!(st2.ground, Some(GroundedState::Idle));
}

#[test]
fn machine_orders_jump_when_eligible() {
    // A fresh jumper is inside both grace windows.
    let vel = KinematicVelocity { x: 0, y: 0 };
    let st = machine_step(idle_state(), &vel, Some(&outcome(true)), Some(&fresh_jumper()),
        None);
    assert_eq!(st.ground, Some(GroundedState::Jumping));
}

#[test]
fn machine_hands_jumping_off_to_rising() {
    let vel = KinematicVelocity { x: 0, y: 500_000 };
    let st = MotionState { ground: Some(GroundedState::Jumping), air: None, wall: None };
    // After the jump the windows are consumed, so no re-trigger interferes.
    let r = machine_step(st, &vel, Some(&outcome(false)), Some(&no_jump_jumper()), None);
    assert_eq!(r.ground, None);
    assert_eq!(r.air, Some(InAirState::Rising));
}

#[test]
fn machine_falls_when_dropping() {
    let vel = KinematicVelocity { x: 0, y: -6_000 };
    let r = machine_step(idle_state(), &vel, Some(&outcome(false)), Some(&no_jump_jumper()),
        None);
    assert_eq!(r.ground, None);
    assert_eq!(r.air, Some(InAirState::Falling));
    // At the threshold the actor still counts as rising.
    let vel2 = KinematicVelocity { x: 0, y: -5_000 };
    let r2 = machine_step(idle_state(), &vel2, Some(&outcome(false)), Some(&no_jump_jumper()),
        None);
    assert_eq!(r2.air, Some(InAirState::Rising));
}

#[test]
fn machine_grapple_takes_air_axis() {
    let vel = KinematicVelocity { x: 0, y: -6_000 };
    let mut g = Grappler::new(300_000, 75_000, 200_000, 250_000, 200_000, 400);
    g.current_point = Some(1);
    let r = machine_step(airborne(InAirState::Falling), &vel, Some(&outcome(false)),
        Some(&no_jump_jumper()), Some(&g));
    assert_eq!(r.air, Some(InAirState::Grapple));
    // Not grappling: falling stays.
    let g2 = Grappler::new(300_000, 75_000, 200_000, 250_000, 200_000, 400);
    let r2 = machine_step(airborne(InAirState::Falling), &vel, Some(&outcome(false)),
        Some(&no_jump_jumper()), Some(&g2));
    assert_eq!(r2.air, Some(InAirState::Falling));
}

#[test]
fn trigger_surface_delegates_to_controllers() {
    let mut g = Grappler::new(300_000, 75_000, 200_000, 250_000, 200_000, 400);
    assert!(!can_grapple_trigger(Some(&g)));
    assert!(!grappling_trigger(Some(&g)));
    g.closest_point = Some(1);
    assert!(can_grapple_trigger(Some(&g)));
    g.current_point = Some(1);
    assert!(grappling_trigger(Some(&g)));
    assert!(!can_grapple_trigger(None));
    let vel = KinematicVelocity { x: -6_000, y: -6_000 };
    assert!(walking_trigger(&vel));
    assert!(falling_trigger(&vel));
    assert!(grounded_trigger(Some(&outcome(true))));
    assert!(!grounded_trigger(None));
    assert!(jump_trigger(&fresh_jumper()));
    assert!(!jump_trigger(&no_jump_jumper()));
}

#[test]
fn machine_wall_axis_carried_through() {
    let vel = KinematicVelocity { x: 0, y: 0 };
    let st = MotionState {
        ground: Some(GroundedState::Idle),
        air: None,
        wall: Some(WallState::Sliding),
    };
    let r = machine_step(st, &vel, Some(&outcome(true)), Some(&no_jump_jumper()), None);
    assert_eq!(r.wall, Some(WallState::Sliding));
}

#[test]
fn terminal_velocity_raises_fast_fall() {
    let t = test_terminal();
    let w = test_wall_mover();
    let input = InputSnapshot::neutral();
    let mut vel = KinematicVelocity { x: 0, y: -2_000_000 };
    terminal_velocity(&mut vel, &t, &w, &input);
    assert_eq!(vel.y, -1_150_000);
    // A slower fall is untouched.
    let mut vel2 = KinematicVelocity { x: 0, y: -100_000 };
    terminal_velocity(&mut vel2, &t, &w, &input);
    assert_eq!(vel2.y, -100_000);
}

#[test]
fn terminal_velocity_wall_slide_slows_fall() {
    let t = test_terminal();
    let mut w = test_wall_mover();
    w.current_wall = Some(Wall { entity: 1, side: 1 });
    let input = InputSnapshot::neutral();
    let mut vel = KinematicVelocity { x: 0, y: -2_000_000 };
    terminal_velocity(&mut vel, &t, &w, &input);
    // The wall-slide multiplier 0.1 raises the floor to -115.
    assert_eq!(vel.y, -115_000);
}

#[test]
fn terminal_velocity_hold_down_falls_faster() {
    let t = test_terminal();
    let w = test_wall_mover();
    let input = InputSnapshot { down_pressed: true, ..InputSnapshot::neutral() };
    let mut vel = KinematicVelocity { x: 0, y: -2_000_000 };
    terminal_velocity(&mut vel, &t, &w, &input);
    // Hold-down multiplier 1.5: the floor deepens to -1725.
    assert_eq!(vel.y, -1_725_000);
}

#[test]
fn landing_boost_on_qualifying_landing() {
    let mut l = test_lander();
    l.prev_state = Some(InAirState::Falling);
    l.prev_vel = -800_000;
    let mut vel = KinematicVelocity { x: 0, y: -800_000 };
    let input = InputSnapshot { land_pressed: true, ..InputSnapshot::neutral() };
    lander(&mut l, &mut vel, &input, None, Some(GroundedState::Idle), &outcome(true), 100);
    // Direction is the normalized velocity (straight down), scaled a
    // thousandfold.
    assert_eq!(vel.y, -1_800_000);
    assert_eq!(vel.x, 0);
    // The tracking state now holds this tick's values.
    assert_eq!(l.prev_vel, -1_800_000);
    assert_eq!(l.prev_state, None);
}

#[test]
fn landing_requires_fast_fall() {
    let mut l = test_lander();
    l.prev_state = Some(InAirState::Falling);
    l.prev_vel = -400_000; // above the -500 qualifying speed
    let input = InputSnapshot { land_pressed: true, ..InputSnapshot::neutral() };
    assert!(!should_land(&l, &input, Some(GroundedState::Idle)));
    let mut vel = KinematicVelocity { x: 0, y: -400_000 };
    lander(&mut l, &mut vel, &input, None, Some(GroundedState::Idle), &outcome(true), 100);
    assert_eq!(vel.y, -400_000);
}

#[test]
fn landing_requires_buffered_press() {
    let mut l = test_lander();
    l.prev_state = Some(InAirState::Falling);
    l.prev_vel = -800_000;
    l.land_buffer_timer.elapsed_ms = 300; // the window has closed
    let input = InputSnapshot { land_pressed: true, ..InputSnapshot::neutral() };
    assert!(!should_land(&l, &input, Some(GroundedState::Idle)));
    // A fresh press reopens the window.
    let pressed = InputSnapshot {
        land_pressed: true,
        land_just_pressed: true,
        ..InputSnapshot::neutral()
    };
    let mut vel = KinematicVelocity { x: 0, y: -800_000 };
    lander(&mut l, &mut vel, &pressed, None, Some(GroundedState::Idle), &outcome(true), 100);
    assert_eq!(vel.y, -1_800_000);
}

#[test]
fn landing_dir_prefers_glancing_displacement() {
    let vel = KinematicVelocity { x: 0, y: -100_000 };
    let o = outcome_with(Vec2 { x: 3_000, y: 4_000 }, Vec2 { x: 10_000, y: 0 }, true);
    // The applied displacement is much longer than requested: a glancing
    // contact; the direction is the normalized request.
    assert_eq!(get_landing_dir(&vel, &o), Vec2 { x: 600, y: 800 });
}

#[test]
fn landing_dir_falls_back_to_velocity_then_diagonal() {
    let vel = KinematicVelocity { x: 0, y: -100_000 };
    let o = outcome(true);
    assert_eq!(get_landing_dir(&vel, &o), Vec2 { x: 0, y: -1_000 });
    let rest = KinematicVelocity { x: 0, y: 0 };
    assert_eq!(get_landing_dir(&rest, &o), Vec2 { x: 707, y: 707 });
}

#[test]
fn landing_multi_is_unit() {
    assert_eq!(get_landing_multi(), Vec2 { x: 1_000, y: 1_000 });
}
