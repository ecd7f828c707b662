use vstd::prelude::*;

use crate::components::{Position, Velocity};
use crate::motion::fits_i64;

verus! {

/// Speed gained per tick while a direction key is held.
pub const PLAYER_ACCELERATION: i64 = 150;

/// Speed lost per tick to friction.
pub const PLAYER_FRICTION: i64 = 50;

/// How far the paddle's centre may go either side of the origin.
pub const PLAYER_BOUND: i64 = 45_000_000;

pub open spec fn clamp(x: int, lo: int, hi: int) -> int {
    if x < lo {
        lo
    } else if x > hi {
        hi
    } else {
        x
    }
}

/// Horizontal speed after one tick: the held keys accelerate, then friction
/// pulls a non-zero speed toward zero.
pub open spec fn player_velocity_after(v: int, left_pressed: bool, right_pressed: bool) -> int {
    let a = v - (if left_pressed { PLAYER_ACCELERATION as int } else { 0 }) + (if right_pressed {
        PLAYER_ACCELERATION as int
    } else {
        0
    });
    if a > 0 {
        a - PLAYER_FRICTION
    } else if a < 0 {
        a + PLAYER_FRICTION
    } else {
        0
    }
}

/// Horizontal position after moving at `v` for `dt` milliseconds, held within
/// the playing field.
pub open spec fn player_x_after(x: int, v: int, dt: int) -> int {
    clamp(x + v * dt, -PLAYER_BOUND, PLAYER_BOUND as int)
}

/// Paddle movement for one tick from the state of the left and right keys.
pub fn move_player(
    position: &mut Position,
    velocity: &mut Velocity,
    left_pressed: bool,
    right_pressed: bool,
    dt: u32,
)
    requires
        fits_i64(old(velocity).x_velocity - PLAYER_ACCELERATION - PLAYER_FRICTION),
        fits_i64(old(velocity).x_velocity + PLAYER_ACCELERATION + PLAYER_FRICTION),
    ensures
        final(velocity).x_velocity == player_velocity_after(
            old(velocity).x_velocity as int,
            left_pressed,
            right_pressed,
        ),
        final(velocity).y_velocity == old(velocity).y_velocity,
        final(position).x_position == player_x_after(
            old(position).x_position as int,
            final(velocity).x_velocity as int,
            dt as int,
        ),
        final(position).y_position == old(position).y_position,
{
    let mut v: i64 = velocity.x_velocity;
    if left_pressed {
        v = v - PLAYER_ACCELERATION;
    }
    if right_pressed {
        v = v + PLAYER_ACCELERATION;
    }
    if v > 0 {
        v = v - PLAYER_FRICTION;
    } else if v < 0 {
        v = v + PLAYER_FRICTION;
    }
    velocity.x_velocity = v;
    let vw: i128 = v as i128;
    let dw: i128 = dt as i128;
    assert(-0x8000_0000_0000_0000 * 0x1_0000_0000 <= vw * dw <= 0x8000_0000_0000_0000
        * 0x1_0000_0000) by (nonlinear_arith)
        requires
            -0x8000_0000_0000_0000 <= vw < 0x8000_0000_0000_0000,
            0 <= dw < 0x1_0000_0000,
    ;
    let target: i128 = position.x_position as i128 + vw * dw;
    let x: i128 = if target < -(PLAYER_BOUND as i128) {
        -(PLAYER_BOUND as i128)
    } else if target > PLAYER_BOUND as i128 {
        PLAYER_BOUND as i128
    } else {
        target
    };
    position.x_position = x as i64;
}

} // verus!
