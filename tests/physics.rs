use flappy_bird::catalog::{BirdCharacter, UNIT};
use flappy_bird::entities::{Bird, Gravity, Velocity};
use flappy_bird::physics::{bird_physics_system, can_integrate, flap, tilt_for, GRAVITY, JUMP_FORCE};

fn bird(y: i64, vy: i64) -> Bird {
    Bird {
        character: BirdCharacter::BlueBird,
        x: -200 * UNIT,
        y,
        velocity: Velocity { y: vy },
        gravity: Gravity(GRAVITY),
        tilt: 0,
    }
}

#[test]
fn gravity_then_position_with_updated_velocity() {
    let mut b = bird(0, 0);
    bird_physics_system(&mut b, 16);
    // 980 units/s² over 16 ms: velocity -15.68 units/s.
    assert_eq!(b.velocity.y, -15_680);
    // Moved by the new velocity, not the old one (which was zero).
    assert_eq!(b.y, -15_680 * 16);
    assert_eq!(b.x, -200 * UNIT);
}

#[test]
fn flap_sets_velocity_then_gravity_acts() {
    let mut b = bird(10 * UNIT, -123_456);
    flap(&mut b, JUMP_FORCE);
    assert_eq!(b.velocity.y, 400_000);
    bird_physics_system(&mut b, 10);
    assert_eq!(b.velocity.y, 400_000 - 9_800);
    assert_eq!(b.y, 10 * UNIT + 390_200 * 10);
}

#[test]
fn zero_time_step_changes_nothing_but_tilt() {
    let mut b = bird(5, 300_000);
    bird_physics_system(&mut b, 0);
    assert_eq!(b.velocity.y, 300_000);
    assert_eq!(b.y, 5);
    assert_eq!(b.tilt, 500);
}

#[test]
fn fall_speed_is_not_clamped() {
    let mut b = bird(0, 0);
    for _ in 0..100 {
        bird_physics_system(&mut b, 100);
    }
    // Ten seconds of free fall: 9800 units/s downward.
    assert_eq!(b.velocity.y, -9_800_000);
}

#[test]
fn tilt_saturates_at_half_radian() {
    assert_eq!(tilt_for(0), 0);
    assert_eq!(tilt_for(150_000), 250);
    assert_eq!(tilt_for(-150_000), -250);
    assert_eq!(tilt_for(1_000_000), 500);
    assert_eq!(tilt_for(-1_000_000), -500);
    assert_eq!(tilt_for(-599), 0);
}

#[test]
fn integration_overflow_is_detected() {
    assert!(can_integrate(&bird(0, 0), 16));
    assert!(!can_integrate(&bird(i64::MAX - 10, 1_000_000), 1000));
}
