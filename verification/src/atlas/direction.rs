use vstd::prelude::*;

use crate::atlas::point::{Point, SizedPoint, MAX_POINT_SIZE};

verus! {

/// The eight compass directions on the map grid, plus `NoDirection` (no movement).
/// North is towards smaller `y`, East towards larger `x`.
#[derive(Clone, Copy, Debug, PartialEq, Eq, Structural)]
pub enum Direction {
    NoDirection,
    North,
    NorthEast,
    East,
    SouthEast,
    South,
    SouthWest,
    West,
    NorthWest,
}

/// The value of `v` once reinterpreted as an `i32`, as the game does when it
/// moves from unsigned map coordinates to signed offsets.
pub open spec fn as_i32(v: u32) -> int {
    (v as i32) as int
}

/// `x` clamped into `-1..=1`.
pub open spec fn spec_clamp_to_one(x: int) -> int {
    if x > 1 {
        1
    } else if x < -1 {
        -1
    } else {
        x
    }
}

/// A single delta component as `from_delta` reads it: only exactly `1` and
/// `-1` count, every other value means no movement on that axis.
pub open spec fn unit_component(v: int) -> int {
    if v == 1 {
        1
    } else if v == -1 {
        -1
    } else {
        0
    }
}

/// The point at signed map coordinates `(x, y)`, if it lies on the map.
pub open spec fn spec_constrained_point(x: int, y: int) -> Option<Point> {
    if 0 <= x < MAX_POINT_SIZE && 0 <= y < MAX_POINT_SIZE {
        Some(Point { x: x as u32, y: y as u32 })
    } else {
        None
    }
}

impl Direction {
    /// The unit step `(dx, dy)` of this direction.
    pub open spec fn delta(self) -> (int, int) {
        match self {
            Direction::NoDirection => (0, 0),
            Direction::North => (0, -1),
            Direction::NorthEast => (1, -1),
            Direction::East => (1, 0),
            Direction::SouthEast => (1, 1),
            Direction::South => (0, 1),
            Direction::SouthWest => (-1, 1),
            Direction::West => (-1, 0),
            Direction::NorthWest => (-1, -1),
        }
    }

    /// Whether this is one of North, South, East or West.
    pub open spec fn is_cardinal(self) -> bool {
        self is North || self is South || self is East || self is West
    }

    /// The direction whose step is `(dx, dy)` once each component is read by
    /// `unit_component`.
    pub open spec fn spec_from_delta(dx: int, dy: int) -> Direction {
        let ux = unit_component(dx);
        let uy = unit_component(dy);
        if ux == 1 {
            if uy == 1 {
                Direction::SouthEast
            } else if uy == -1 {
                Direction::NorthEast
            } else {
                Direction::East
            }
        } else if ux == -1 {
            if uy == 1 {
                Direction::SouthWest
            } else if uy == -1 {
                Direction::NorthWest
            } else {
                Direction::West
            }
        } else {
            if uy == 1 {
                Direction::South
            } else if uy == -1 {
                Direction::North
            } else {
                Direction::NoDirection
            }
        }
    }

    /// Whether stepping from `point` in this direction stays within `i32`.
    pub open spec fn step_fits(self, point: Point) -> bool {
        i32::MIN <= as_i32(point.x) + self.delta().0 <= i32::MAX && i32::MIN <= as_i32(point.y)
            + self.delta().1 <= i32::MAX
    }

    /// The point one step from `point` in this direction, if it is on the map.
    /// `NoDirection` never moves and is always defined.
    pub open spec fn spec_point_in_direction(self, point: Point) -> Option<Point> {
        if self is NoDirection {
            Some(point)
        } else {
            spec_constrained_point(as_i32(point.x) + self.delta().0, as_i32(point.y) + self.delta().1)
        }
    }

    /// The direction from `initial` towards `end`, one unit step per axis.
    pub fn from_two_points(initial: &Point, end: &Point) -> (r: Direction)
        requires
            i32::MIN <= as_i32(end.x) - as_i32(initial.x) <= i32::MAX,
            i32::MIN <= as_i32(end.y) - as_i32(initial.y) <= i32::MAX,
        ensures
            r.delta() == (
                spec_clamp_to_one(as_i32(end.x) - as_i32(initial.x)),
                spec_clamp_to_one(as_i32(end.y) - as_i32(initial.y)),
            ),
    {
        let x = clamp_to_one(end.x as i32 - initial.x as i32);
        let y = clamp_to_one(end.y as i32 - initial.y as i32);

        Direction::from_delta(x, y)
    }

    /// The direction of the step `(delta_x, delta_y)`; a component other than
    /// `1` or `-1` counts as no movement on its axis.
    fn from_delta(delta_x: i32, delta_y: i32) -> (r: Direction)
        ensures
            r.delta() == (unit_component(delta_x as int), unit_component(delta_y as int)),
            r == Direction::spec_from_delta(delta_x as int, delta_y as int),
    {
        if delta_x == 1 {
            if delta_y == 1 {
                Direction::SouthEast
            } else if delta_y == -1 {
                Direction::NorthEast
            } else {
                Direction::East
            }
        } else if delta_x == -1 {
            if delta_y == 1 {
                Direction::SouthWest
            } else if delta_y == -1 {
                Direction::NorthWest
            } else {
                Direction::West
            }
        } else {
            if delta_y == 1 {
                Direction::South
            } else if delta_y == -1 {
                Direction::North
            } else {
                Direction::NoDirection
            }
        }
    }

    /// The direction pointing the other way.
    pub fn opposite(&self) -> (r: Direction)
        ensures
            r.delta() == (-self.delta().0, -self.delta().1),
            r == self.opposite_spec(),
    {
        match self {
            Direction::North => Direction::South,
            Direction::NorthEast => Direction::SouthWest,
            Direction::East => Direction::West,
            Direction::SouthEast => Direction::NorthWest,
            Direction::South => Direction::North,
            Direction::SouthWest => Direction::NorthEast,
            Direction::West => Direction::East,
            Direction::NorthWest => Direction::SouthEast,
            Direction::NoDirection => Direction::NoDirection,
        }
    }

    /// The point one step from `point` in this direction, or `None` when the
    /// step leaves the map.
    pub fn point_in_direction(&self, point: &Point) -> (r: Option<Point>)
        requires
            self.step_fits(*point),
        ensures
            r == self.spec_point_in_direction(*point),
    {
        let x: i32 = point.x as i32;
        let y: i32 = point.y as i32;
        match self {
            Direction::North => constrained_point(x, y - 1),
            Direction::NorthEast => constrained_point(x + 1, y - 1),
            Direction::East => constrained_point(x + 1, y),
            Direction::SouthEast => constrained_point(x + 1, y + 1),
            Direction::South => constrained_point(x, y + 1),
            Direction::SouthWest => constrained_point(x - 1, y + 1),
            Direction::West => constrained_point(x - 1, y),
            Direction::NorthWest => constrained_point(x - 1, y - 1),
            Direction::NoDirection => Some(*point),
        }
    }

    /// The sized point moved one step in this direction (keeping its size), or
    /// `None` when its origin would leave the map.
    pub fn sized_point_in_direction(&self, point: &SizedPoint) -> (r: Option<SizedPoint>)
        requires
            self.step_fits(point.origin),
        ensures
            r == (match self.spec_point_in_direction(point.origin) {
                Some(o) => Some(SizedPoint { origin: o, width: point.width, height: point.height }),
                None => None,
            }),
    {
        if let Some(new_origin) = self.point_in_direction(&point.origin) {
            Some(SizedPoint::init_multi(new_origin.x, new_origin.y, point.width, point.height))
        } else {
            None
        }
    }
}

/// `x` clamped into `-1..=1`.
pub fn clamp_to_one(x: i32) -> (r: i32)
    ensures
        r == spec_clamp_to_one(x as int),
{
    if x > 1 {
        1
    } else if x < -1 {
        -1
    } else {
        x
    }
}

/// The point at signed coordinates `(x, y)`, or `None` when it is off the map.
pub fn constrained_point(x: i32, y: i32) -> (r: Option<Point>)
    ensures
        r == spec_constrained_point(x as int, y as int),
{
    if x >= 0 && y >= 0 && y < MAX_POINT_SIZE as i32 && x < MAX_POINT_SIZE as i32 {
        Some(Point::init(x as u32, y as u32))
    } else {
        None
    }
}

/// Stepping in a direction and then in its opposite direction returns to the
/// starting point, as long as both steps stay on the map.
pub proof fn lemma_opposite_step_returns(d: Direction, p: Point)
    requires
        p.x < MAX_POINT_SIZE,
        p.y < MAX_POINT_SIZE,
        d.spec_point_in_direction(p) is Some,
    ensures
        d.opposite_spec().spec_point_in_direction(d.spec_point_in_direction(p).unwrap()) == Some(p),
{
}

impl Direction {
    /// The direction pointing the other way, as a spec function.
    pub open spec fn opposite_spec(self) -> Direction {
        Direction::spec_from_delta(-self.delta().0, -self.delta().1)
    }
}

/// Taking the opposite direction twice gives back the original direction.
pub proof fn lemma_opposite_involutive(d: Direction)
    ensures
        d.opposite_spec().opposite_spec() == d,
{
}

/// Every direction is recovered from its own step.
pub proof fn lemma_from_delta_of_delta(d: Direction)
    ensures
        Direction::spec_from_delta(d.delta().0, d.delta().1) == d,
{
}

/// The direction from a point to its neighbour in direction `d` is `d`.
pub proof fn lemma_from_two_points_of_step(d: Direction, p: Point)
    requires
        p.x < MAX_POINT_SIZE,
        p.y < MAX_POINT_SIZE,
        d.spec_point_in_direction(p) is Some,
    ensures
        ({
            let q = d.spec_point_in_direction(p).unwrap();
            Direction::spec_from_delta(
                spec_clamp_to_one(as_i32(q.x) - as_i32(p.x)),
                spec_clamp_to_one(as_i32(q.y) - as_i32(p.y)),
            ) == d
        }),
{
}

} // verus!
