use vstd::prelude::*;

verus! {

/// Centre of a rectangle, in hundred-thousandths of a world unit.
#[derive(Clone, Copy, Debug, PartialEq, Eq, Structural)]
pub struct Position {
    pub x_position: i64,
    pub y_position: i64,
}

/// Rate of change of a position, in hundredths of a world unit per second.
#[derive(Clone, Copy, Debug, PartialEq, Eq, Structural)]
pub struct Velocity {
    pub x_velocity: i64,
    pub y_velocity: i64,
}

/// Half the width and half the height of an axis-aligned rectangle.
#[derive(Clone, Copy, Debug, PartialEq, Eq, Structural)]
pub struct Extent {
    pub half_width: i64,
    pub half_height: i64,
}

impl Extent {
    /// Both half-extents are positive.
    pub open spec fn wf(self) -> bool {
        self.half_width > 0 && self.half_height > 0
    }

    /// The half-extents of a rectangle of the given full width and height.
    pub fn from_size(width: i64, height: i64) -> (r: Extent)
        requires
            width > 0,
            height > 0,
        ensures
            r.half_width == width / 2,
            r.half_height == height / 2,
    {
        Extent { half_width: width / 2, half_height: height / 2 }
    }
}

/// A moving simulation object: the ball.
#[derive(Clone, Copy, Debug, PartialEq, Eq, Structural)]
pub struct Body {
    pub position: Position,
    pub half_extent: Extent,
    pub velocity: Velocity,
}

impl Body {
    pub open spec fn wf(self) -> bool {
        self.half_extent.wf()
    }
}

/// Marker for an entity that has a name to greet.
#[derive(Clone, Copy, Debug, PartialEq, Eq, Structural)]
pub struct Person;

/// Marker for the entity that the keyboard steers.
#[derive(Clone, Copy, Debug, PartialEq, Eq, Structural)]
pub struct Player;

/// The display name of an entity.
#[derive(Debug)]
pub struct Name(pub String);

} // verus!
