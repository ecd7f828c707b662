use vstd::prelude::*;

use crate::collision::{Collider, ColliderKind};
use crate::components::{Body, Extent, Position, Velocity};

verus! {

/// One world unit in length units.
pub const UNIT: i64 = 100_000;

/// One world unit per second in velocity units.
pub const SPEED_UNIT: i64 = 100;

/// x coordinate of the left wall's centre.
pub const LEFT_WALL: i64 = -450 * UNIT;

/// x coordinate of the right wall's centre.
pub const RIGHT_WALL: i64 = 450 * UNIT;

/// y coordinate of the bottom wall's centre.
pub const BOTTOM_WALL: i64 = -300 * UNIT;

/// y coordinate of the top wall's centre.
pub const TOP_WALL: i64 = 300 * UNIT;

/// Half the thickness of a wall.
pub const HALF_WALL_THICKNESS: i64 = 5 * UNIT;

/// Half the side of the square ball.
pub const HALF_BALL_SIZE: i64 = 15 * UNIT;

/// Half the height of a side wall, reaching over the corners.
pub const HALF_SIDE_WALL_SPAN: i64 = TOP_WALL + HALF_WALL_THICKNESS;

/// Half the width of the top and bottom walls, reaching over the corners.
pub const HALF_FLOOR_SPAN: i64 = RIGHT_WALL + HALF_WALL_THICKNESS;

/// y coordinate of the ball's centre at the start.
pub const BALL_START_Y: i64 = -50 * UNIT;

/// Each velocity component's magnitude at the start: 200 units per second.
pub const BALL_START_SPEED: i64 = 200 * SPEED_UNIT;

/// A collider with the given centre, half-extents and role.
pub open spec fn collider_at(x: i64, y: i64, hw: i64, hh: i64, kind: ColliderKind) -> Collider {
    Collider {
        position: Position { x_position: x, y_position: y },
        half_extent: Extent { half_width: hw, half_height: hh },
        kind,
    }
}

/// The four walls that enclose the field: the left and right goals, then the
/// bottom and top walls. Each wall spans the field's side plus the corners.
pub fn arena_walls() -> (r: Vec<Collider>)
    ensures
        r@ == seq![
            collider_at(LEFT_WALL, 0, HALF_WALL_THICKNESS, HALF_SIDE_WALL_SPAN, ColliderKind::LeftGoal),
            collider_at(RIGHT_WALL, 0, HALF_WALL_THICKNESS, HALF_SIDE_WALL_SPAN, ColliderKind::RightGoal),
            collider_at(0, BOTTOM_WALL, HALF_FLOOR_SPAN, HALF_WALL_THICKNESS, ColliderKind::Wall),
            collider_at(0, TOP_WALL, HALF_FLOOR_SPAN, HALF_WALL_THICKNESS, ColliderKind::Wall),
        ],
        forall|i: int| 0 <= i < r@.len() ==> (#[trigger] r@[i]).wf(),
{
    let side = Extent { half_width: HALF_WALL_THICKNESS, half_height: HALF_SIDE_WALL_SPAN };
    let floor = Extent { half_width: HALF_FLOOR_SPAN, half_height: HALF_WALL_THICKNESS };
    let mut r: Vec<Collider> = Vec::new();
    r.push(Collider { position: Position { x_position: LEFT_WALL, y_position: 0 }, half_extent: side, kind: ColliderKind::LeftGoal });
    r.push(Collider { position: Position { x_position: RIGHT_WALL, y_position: 0 }, half_extent: side, kind: ColliderKind::RightGoal });
    r.push(Collider { position: Position { x_position: 0, y_position: BOTTOM_WALL }, half_extent: floor, kind: ColliderKind::Wall });
    r.push(Collider { position: Position { x_position: 0, y_position: TOP_WALL }, half_extent: floor, kind: ColliderKind::Wall });
    assert(r@ =~= seq![
            collider_at(LEFT_WALL, 0, HALF_WALL_THICKNESS, HALF_SIDE_WALL_SPAN, ColliderKind::LeftGoal),
            collider_at(RIGHT_WALL, 0, HALF_WALL_THICKNESS, HALF_SIDE_WALL_SPAN, ColliderKind::RightGoal),
            collider_at(0, BOTTOM_WALL, HALF_FLOOR_SPAN, HALF_WALL_THICKNESS, ColliderKind::Wall),
            collider_at(0, TOP_WALL, HALF_FLOOR_SPAN, HALF_WALL_THICKNESS, ColliderKind::Wall),
        ]);
    r
}

/// The ball at the start of a session: centred 50 units below the origin,
/// moving at 200 units per second right and 200 down.
pub fn starting_ball() -> (r: Body)
    ensures
        r.wf(),
        r.position == (Position { x_position: 0, y_position: BALL_START_Y }),
        r.half_extent == (Extent { half_width: HALF_BALL_SIZE, half_height: HALF_BALL_SIZE }),
        r.velocity.x_velocity == BALL_START_SPEED,
        r.velocity.y_velocity == -BALL_START_SPEED,
{
    Body {
        position: Position { x_position: 0, y_position: BALL_START_Y },
        half_extent: Extent { half_width: HALF_BALL_SIZE, half_height: HALF_BALL_SIZE },
        velocity: Velocity { x_velocity: BALL_START_SPEED, y_velocity: -BALL_START_SPEED },
    }
}

} // verus!
