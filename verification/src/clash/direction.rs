use vstd::prelude::*;

use crate::atlas::Point;

verus! {

/// The eight compass directions used by the battle rules, plus `NoDirection`.
/// North is towards smaller `y`, East towards larger `x`.
#[derive(Clone, Copy)]
pub enum Direction {
    NoDirection,
    North,
    NorthEast,
    East,
    SouthEast,
    South,
    SouthWest,
    West,
    NorthWest,
}

/// `x` clamped into `-1..=1`.
pub open spec fn spec_clamp_to_one(x: int) -> int {
    if x > 1 {
        1
    } else if x < -1 {
        -1
    } else {
        x
    }
}

/// A delta component as `from_delta` reads it: only exactly `1` and `-1`
/// count, every other value is no movement.
pub open spec fn unit_component(v: int) -> int {
    if v == 1 {
        1
    } else if v == -1 {
        -1
    } else {
        0
    }
}

/// The value of `v` reinterpreted as an `i32`.
pub open spec fn as_i32(v: u32) -> int {
    (v as i32) as int
}

impl Direction {
    /// The unit step `(dx, dy)` of this direction.
    pub open spec fn delta(self) -> (int, int) {
        match self {
            Direction::NoDirection => (0, 0),
            Direction::North => (0, -1),
            Direction::NorthEast => (1, -1),
            Direction::East => (1, 0),
            Direction::SouthEast => (1, 1),
            Direction::South => (0, 1),
            Direction::SouthWest => (-1, 1),
            Direction::West => (-1, 0),
            Direction::NorthWest => (-1, -1),
        }
    }

    /// The direction from `initial` towards `end`, one unit step per axis.
    pub fn from_two_points(initial: &Point, end: &Point) -> (r: Direction)
        requires
            i32::MIN <= as_i32(end.x) - as_i32(initial.x) <= i32::MAX,
            i32::MIN <= as_i32(end.y) - as_i32(initial.y) <= i32::MAX,
        ensures
            r.delta() == (
                spec_clamp_to_one(as_i32(end.x) - as_i32(initial.x)),
                spec_clamp_to_one(as_i32(end.y) - as_i32(initial.y)),
            ),
    {
        let x = clamp_to_one(end.x as i32 - initial.x as i32);
        let y = clamp_to_one(end.y as i32 - initial.y as i32);

        Direction::from_delta(x, y)
    }

    /// The direction of the step `(delta_x, delta_y)`; a component other than
    /// `1` or `-1` counts as no movement on its axis.
    pub fn from_delta(delta_x: i32, delta_y: i32) -> (r: Direction)
        ensures
            r.delta() == (unit_component(delta_x as int), unit_component(delta_y as int)),
    {
        if delta_x == 1 {
            if delta_y == 1 {
                Direction::SouthEast
            } else if delta_y == -1 {
                Direction::NorthEast
            } else {
                Direction::East
            }
        } else if delta_x == -1 {
            if delta_y == 1 {
                Direction::SouthWest
            } else if delta_y == -1 {
                Direction::NorthWest
            } else {
                Direction::West
            }
        } else {
            if delta_y == 1 {
                Direction::South
            } else if delta_y == -1 {
                Direction::North
            } else {
                Direction::NoDirection
            }
        }
    }

    /// The direction pointing the other way.
    pub fn opposite(&self) -> (r: Direction)
        ensures
            r.delta() == (-self.delta().0, -self.delta().1),
    {
        match self {
            Direction::North => Direction::South,
            Direction::NorthEast => Direction::SouthWest,
            Direction::East => Direction::West,
            Direction::SouthEast => Direction::NorthWest,
            Direction::South => Direction::North,
            Direction::SouthWest => Direction::NorthEast,
            Direction::West => Direction::East,
            Direction::NorthWest => Direction::SouthEast,
            Direction::NoDirection => Direction::NoDirection,
        }
    }

    /// The point one step from `point` in this direction.
    pub fn point_in_direction(&self, point: Point) -> (r: Point)
        requires
            0 <= point.x + self.delta().0 <= u32::MAX,
            0 <= point.y + self.delta().1 <= u32::MAX,
        ensures
            r.x == point.x + self.delta().0,
            r.y == point.y + self.delta().1,
    {
        match self {
            Direction::North => Point::init(point.x, point.y - 1),
            Direction::NorthEast => Point::init(point.x + 1, point.y - 1),
            Direction::East => Point::init(point.x + 1, point.y),
            Direction::SouthEast => Point::init(point.x + 1, point.y + 1),
            Direction::South => Point::init(point.x, point.y + 1),
            Direction::SouthWest => Point::init(point.x - 1, point.y + 1),
            Direction::West => Point::init(point.x - 1, point.y),
            Direction::NorthWest => Point::init(point.x - 1, point.y - 1),
            Direction::NoDirection => point,
        }
    }
}

/// `x` clamped into `-1..=1`.
fn clamp_to_one(x: i32) -> (r: i32)
    ensures
        r == spec_clamp_to_one(x as int),
{
    if x > 1 {
        1
    } else if x < -1 {
        -1
    } else {
        x
    }
}

} // verus!
