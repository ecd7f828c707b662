use vstd::prelude::*;

use crate::components::Body;

verus! {

/// Whether an integer fits in an `i64`.
pub open spec fn fits_i64(x: int) -> bool {
    i64::MIN <= x <= i64::MAX
}

/// The coordinate reached from `p` after moving at speed `v` for `dt` milliseconds.
pub open spec fn moved(p: int, v: int, dt: int) -> int {
    p + v * dt
}

/// Whether a body can be advanced by `dt` without leaving the coordinate range.
pub open spec fn can_integrate(body: Body, dt: u32) -> bool {
    &&& fits_i64(moved(body.position.x_position as int, body.velocity.x_velocity as int, dt as int))
    &&& fits_i64(moved(body.position.y_position as int, body.velocity.y_velocity as int, dt as int))
}

/// One coordinate advanced by `v * dt`; the product is taken in `i128`, where it
/// cannot overflow.
fn advance_coordinate(p: i64, v: i64, dt: u32) -> (r: i64)
    requires
        fits_i64(moved(p as int, v as int, dt as int)),
    ensures
        r == moved(p as int, v as int, dt as int),
{
    let vw: i128 = v as i128;
    let dw: i128 = dt as i128;
    assert(-0x8000_0000_0000_0000 * 0x1_0000_0000 <= vw * dw <= 0x8000_0000_0000_0000
        * 0x1_0000_0000) by (nonlinear_arith)
        requires
            -0x8000_0000_0000_0000 <= vw < 0x8000_0000_0000_0000,
            0 <= dw < 0x1_0000_0000,
    ;
    let q: i128 = p as i128 + vw * dw;
    q as i64
}

/// Motion integration: moves the body by its velocity over `dt` milliseconds.
/// Only the position changes.
pub fn integrate_motion(body: &mut Body, dt: u32)
    requires
        can_integrate(*old(body), dt),
    ensures
        final(body).position.x_position == moved(
            old(body).position.x_position as int,
            old(body).velocity.x_velocity as int,
            dt as int,
        ),
        final(body).position.y_position == moved(
            old(body).position.y_position as int,
            old(body).velocity.y_velocity as int,
            dt as int,
        ),
        final(body).velocity == old(body).velocity,
        final(body).half_extent == old(body).half_extent,
{
    body.position.x_position = advance_coordinate(
        body.position.x_position,
        body.velocity.x_velocity,
        dt,
    );
    body.position.y_position = advance_coordinate(
        body.position.y_position,
        body.velocity.y_velocity,
        dt,
    );
}

} // verus!
