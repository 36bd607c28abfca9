//! Vertical motion of the player under gravity and flap impulses.
use vstd::prelude::*;
use crate::entities::Bird;

verus! {

/// Gravity: 980 units per square second.
pub const GRAVITY: i64 = 980;

/// Upward velocity set by a flap: 400 units per second.
pub const JUMP_FORCE: i64 = 400_000;

/// Speed, in micro-units per millisecond, at which the tilt saturates.
pub const TILT_SPEED: i64 = 300_000;

/// Velocity after `dt` milliseconds of gravity.
pub open spec fn next_velocity(b: Bird, dt: int) -> int {
    b.velocity.y - b.gravity.0 * dt
}

/// Height after `dt` milliseconds: semi-implicit Euler, the position moves
/// by the already updated velocity.
pub open spec fn next_height(b: Bird, dt: int) -> int {
    b.y + next_velocity(b, dt) * dt
}

/// Whether the integrated velocity and height fit the machine integers.
pub open spec fn integrate_fits(b: Bird, dt: int) -> bool {
    i64::MIN <= next_velocity(b, dt) <= i64::MAX && i64::MIN <= next_height(b, dt) <= i64::MAX
}

pub open spec fn clamp(v: int, lo: int, hi: int) -> int {
    if v < lo {
        lo
    } else if v > hi {
        hi
    } else {
        v
    }
}

/// Cosmetic tilt in milliradians: velocity over 300 units per second,
/// clamped to [-1, 1], times half a radian, rounded toward zero.
pub open spec fn tilt_of(v: int) -> int {
    let c = clamp(v, -TILT_SPEED as int, TILT_SPEED as int);
    if c >= 0 {
        c / 600
    } else {
        -((-c) / 600)
    }
}

proof fn lemma_gravity_step_bound(g: int, dt: int)
    requires
        i64::MIN <= g <= i64::MAX,
        0 <= dt <= u32::MAX,
    ensures
        -0x8000_0000_0000_0000 * 0x1_0000_0000 <= g * dt <= 0x8000_0000_0000_0000 * 0x1_0000_0000,
{
    assert(-0x8000_0000_0000_0000 * 0x1_0000_0000 <= g * dt <= 0x8000_0000_0000_0000 * 0x1_0000_0000)
        by (nonlinear_arith)
        requires
            i64::MIN <= g <= i64::MAX,
            0 <= dt <= u32::MAX,
    ;
}

/// Whether one physics step of `dt` milliseconds stays within the machine
/// integers.
pub fn can_integrate(bird: &Bird, dt_ms: u32) -> (r: bool)
    ensures
        r == integrate_fits(*bird, dt_ms as int),
{
    proof {
        lemma_gravity_step_bound(bird.gravity.0 as int, dt_ms as int);
    }
    let v = bird.velocity.y as i128 - (bird.gravity.0 as i128) * (dt_ms as i128);
    if v < i64::MIN as i128 || v > i64::MAX as i128 {
        return false;
    }
    proof {
        lemma_gravity_step_bound(v as int, dt_ms as int);
    }
    let y = bird.y as i128 + v * (dt_ms as i128);
    i64::MIN as i128 <= y && y <= i64::MAX as i128
}

/// Tilt for a velocity, see [`tilt_of`].
pub fn tilt_for(v: i64) -> (r: i64)
    ensures
        r == tilt_of(v as int),
{
    let c = if v < -TILT_SPEED {
        -TILT_SPEED
    } else if v > TILT_SPEED {
        TILT_SPEED
    } else {
        v
    };
    if c >= 0 {
        c / 600
    } else {
        -((-c) / 600)
    }
}

/// Advances the player by `dt_ms` milliseconds: gravity first changes the
/// velocity, then the new velocity moves the player; the tilt follows the
/// new velocity.
pub fn bird_physics_system(bird: &mut Bird, dt_ms: u32)
    requires
        integrate_fits(*old(bird), dt_ms as int),
    ensures
        final(bird).velocity.y == next_velocity(*old(bird), dt_ms as int),
        final(bird).y == next_height(*old(bird), dt_ms as int),
        final(bird).y == old(bird).y + final(bird).velocity.y * dt_ms,
        final(bird).tilt == tilt_of(final(bird).velocity.y as int),
        final(bird).x == old(bird).x,
        final(bird).character == old(bird).character,
        final(bird).gravity == old(bird).gravity,
{
    proof {
        lemma_gravity_step_bound(bird.gravity.0 as int, dt_ms as int);
    }
    let v = (bird.velocity.y as i128 - (bird.gravity.0 as i128) * (dt_ms as i128)) as i64;
    proof {
        lemma_gravity_step_bound(v as int, dt_ms as int);
    }
    let y = (bird.y as i128 + (v as i128) * (dt_ms as i128)) as i64;
    bird.velocity.y = v;
    bird.y = y;
    bird.tilt = tilt_for(v);
}

/// A flap sets (does not add to) the upward velocity.
pub fn flap(bird: &mut Bird, jump_force: i64)
    ensures
        *final(bird) == (Bird { velocity: crate::entities::Velocity { y: jump_force }, ..*old(bird) }),
{
    bird.velocity.y = jump_force;
}

} // verus!
