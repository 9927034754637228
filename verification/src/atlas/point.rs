use vstd::prelude::*;

use crate::atlas::direction::{as_i32, spec_constrained_point, Direction};

verus! {

/// Points live on a fixed-size square map; coordinates at or above this bound
/// are off the map.
pub const MAX_POINT_SIZE: u32 = 13;

/// The largest per-axis distance for which a grid walk is computed.
/// `line_drawing` counts its steps in `f32`; up to this bound every count and
/// every comparison it makes is exact.
pub const WALK_LIMIT: i32 = 0x7fffff;

/// A map coordinate.
#[derive(PartialEq, Eq, Structural, Clone, Copy, Debug, Hash)]
pub struct Point {
    pub x: u32,
    pub y: u32,
}

/// `|v|`.
pub open spec fn abs(v: int) -> int {
    if v < 0 {
        -v
    } else {
        v
    }
}

/// `-1`, `0` or `1` according to the sign of `v`.
pub open spec fn sign(v: int) -> int {
    if v < 0 {
        -1
    } else if v > 0 {
        1
    } else {
        0
    }
}

/// Whether the signed coordinates `(x, y)` lie on the map.
pub open spec fn on_map(x: int, y: int) -> bool {
    0 <= x < MAX_POINT_SIZE && 0 <= y < MAX_POINT_SIZE
}

/// The points that `line_drawing::WalkGrid` visits walking from
/// `(start_x, start_y)` to `(end_x, end_y)`, in order.
pub uninterp spec fn walk_grid(start_x: i32, start_y: i32, end_x: i32, end_y: i32) -> Seq<(i32, i32)>;

/// Whether a grid walk between these signed coordinates is computed exactly
/// and without overflow: each per-axis distance is at most `WALK_LIMIT`, and
/// the walker's one step past the end still fits in an `i32`.
pub open spec fn walk_ok(start_x: int, start_y: int, end_x: int, end_y: int) -> bool {
    &&& i32::MIN <= start_x <= i32::MAX
    &&& i32::MIN <= start_y <= i32::MAX
    &&& i32::MIN < end_x < i32::MAX
    &&& i32::MIN < end_y < i32::MAX
    &&& abs(end_x - start_x) <= WALK_LIMIT
    &&& abs(end_y - start_y) <= WALK_LIMIT
}

/// Whether `q` follows `p` in a grid walk from `(sx, sy)` to `(ex, ey)`: one
/// step along x towards the end, or one step along y towards the end.
pub open spec fn walk_step(p: (i32, i32), q: (i32, i32), sx: int, sy: int, ex: int, ey: int) -> bool {
    ||| (q.0 == p.0 + sign(ex - sx) && q.1 == p.1)
    ||| (q.0 == p.0 && q.1 == p.1 + sign(ey - sy))
}

/// Whether `v` lies between `a` and `b` (in either order).
pub open spec fn between(v: int, a: int, b: int) -> bool {
    (a <= v <= b) || (b <= v <= a)
}

/// Walks the grid from `(start_x, start_y)` to `(end_x, end_y)` with
/// `line_drawing::WalkGrid::new` and collects the visited points.
/// The contract claims of `WalkGrid`: the result is the named walk; it has
/// `|dx| + |dy| + 1` points, starts at the start, ends at the end, stays in the
/// box spanned by the two, and each point is one step along x or along y,
/// towards the end, from the previous one. Which of the two axes each step
/// takes is left to the name.
#[verifier::external_body]
fn walk_grid_points(start_x: i32, start_y: i32, end_x: i32, end_y: i32) -> (r: Vec<(i32, i32)>)
    requires
        walk_ok(start_x as int, start_y as int, end_x as int, end_y as int),
    ensures
        r@ == walk_grid(start_x, start_y, end_x, end_y),
        r@.len() == abs(end_x - start_x) + abs(end_y - start_y) + 1,
        r@[0] == (start_x, start_y),
        r@.last() == (end_x, end_y),
        forall|k: int|
            0 <= k < r@.len() ==> between(#[trigger] r@[k].0 as int, start_x as int, end_x as int)
                && between(r@[k].1 as int, start_y as int, end_y as int),
        forall|k: int|
            0 <= k < r@.len() - 1 ==> walk_step(
                #[trigger] r@[k],
                r@[k + 1],
                start_x as int,
                start_y as int,
                end_x as int,
                end_y as int,
            ),
{
    line_drawing::WalkGrid::new((start_x, start_y), (end_x, end_y)).collect()
}

/// Whether `q` is one step from `p` along x or along y, in the direction
/// that leads from `from` to `to`.
pub open spec fn line_step(p: Point, q: Point, from: Point, to: Point) -> bool {
    ||| (as_i32(q.x) == as_i32(p.x) + sign(as_i32(to.x) - as_i32(from.x)) && q.y == p.y)
    ||| (q.x == p.x && as_i32(q.y) == as_i32(p.y) + sign(as_i32(to.y) - as_i32(from.y)))
}

/// Whether `v` is a grid line from `from` to `to`: it starts at `from`, ends
/// at `to`, has one point more than the steps between them, and each point is
/// one step along x or along y, towards `to`, from the one before.
pub open spec fn grid_line(v: Seq<Point>, from: Point, to: Point) -> bool {
    &&& v.len() == abs(as_i32(to.x) - as_i32(from.x)) + abs(as_i32(to.y) - as_i32(from.y)) + 1
    &&& v[0] == from
    &&& v.last() == to
    &&& forall|k: int| 0 <= k < v.len() - 1 ==> line_step(#[trigger] v[k], v[k + 1], from, to)
}

/// Whether `v` runs from `from` towards `to` one step at a time, along x
/// or along y, over points on the map.
pub open spec fn walk_prefix(v: Seq<Point>, from: Point, to: Point) -> bool {
    &&& v.len() > 0
    &&& v[0] == from
    &&& forall|k: int| 0 <= k < v.len() - 1 ==> line_step(#[trigger] v[k], v[k + 1], from, to)
    &&& forall|k: int| 0 <= k < v.len() ==> (#[trigger] v[k]).x < MAX_POINT_SIZE && v[k].y < MAX_POINT_SIZE
}

/// A `u32` read as an `i32` and back is unchanged.
proof fn lemma_u32_round_trip(x: u32)
    ensures
        ((x as i32) as u32) == x,
{
    assert(((x as i32) as u32) == x) by (bit_vector);
}

/// An `i32` read as a `u32` and back is unchanged.
proof fn lemma_i32_round_trip(a: i32)
    ensures
        ((a as u32) as i32) == a,
{
    assert(((a as u32) as i32) == a) by (bit_vector);
}

/// The points of a grid walk from `from` to `to` form a grid line.
proof fn lemma_walk_is_line(w: Seq<(i32, i32)>, from: Point, to: Point)
    requires
        w.len() == abs(as_i32(to.x) - as_i32(from.x)) + abs(as_i32(to.y) - as_i32(from.y)) + 1,
        w[0] == (from.x as i32, from.y as i32),
        w.last() == (to.x as i32, to.y as i32),
        forall|k: int|
            0 <= k < w.len() - 1 ==> walk_step(
                #[trigger] w[k],
                w[k + 1],
                as_i32(from.x),
                as_i32(from.y),
                as_i32(to.x),
                as_i32(to.y),
            ),
    ensures
        grid_line(spec_points_of(w), from, to),
{
    let v = spec_points_of(w);
    lemma_u32_round_trip(from.x);
    lemma_u32_round_trip(from.y);
    lemma_u32_round_trip(to.x);
    lemma_u32_round_trip(to.y);
    assert(v[0] == from);
    assert(v.last() == to);
    assert forall|k: int| 0 <= k < v.len() - 1 implies line_step(#[trigger] v[k], v[k + 1], from, to) by {
        lemma_i32_round_trip(w[k].0);
        lemma_i32_round_trip(w[k].1);
        lemma_i32_round_trip(w[k + 1].0);
        lemma_i32_round_trip(w[k + 1].1);
        assert(walk_step(w[k], w[k + 1], as_i32(from.x), as_i32(from.y), as_i32(to.x), as_i32(to.y)));
    }
}

/// Whether `b` lies no further back than `a` along a walk heading by the
/// signs of `(ex - sx, ey - sy)`.
pub open spec fn walked_past(a: (i32, i32), b: (i32, i32), sx: int, sy: int, ex: int, ey: int) -> bool {
    &&& (sign(ex - sx) > 0 ==> a.0 <= b.0) && (sign(ex - sx) < 0 ==> a.0 >= b.0) && (sign(ex - sx) == 0 ==> a.0 == b.0)
    &&& (sign(ey - sy) > 0 ==> a.1 <= b.1) && (sign(ey - sy) < 0 ==> a.1 >= b.1) && (sign(ey - sy) == 0 ==> a.1 == b.1)
}

/// Along a grid walk, every point lies no further back than the ones before.
proof fn lemma_walk_monotone(w: Seq<(i32, i32)>, sx: int, sy: int, ex: int, ey: int, i: int)
    requires
        0 <= i < w.len(),
        forall|k: int| 0 <= k < w.len() - 1 ==> walk_step(#[trigger] w[k], w[k + 1], sx, sy, ex, ey),
    ensures
        forall|j: int| 0 <= j <= i ==> walked_past(#[trigger] w[j], w[i], sx, sy, ex, ey),
    decreases i,
{
    if i > 0 {
        lemma_walk_monotone(w, sx, sy, ex, ey, i - 1);
        assert(walk_step(w[i - 1], w[i], sx, sy, ex, ey));
        assert forall|j: int| 0 <= j <= i implies walked_past(#[trigger] w[j], w[i], sx, sy, ex, ey) by {
            if j < i {
                assert(walked_past(w[j], w[i - 1], sx, sy, ex, ey));
            }
        }
    }
}

/// The on-map points of a grid walk that starts on the map are its first
/// points: once the walk leaves the map it does not come back.
proof fn lemma_on_map_prefix(w: Seq<(i32, i32)>, sx: int, sy: int, ex: int, ey: int)
    requires
        w.len() > 0,
        w[0].0 == sx && w[0].1 == sy,
        on_map(sx, sy),
        forall|k: int| 0 <= k < w.len() - 1 ==> walk_step(#[trigger] w[k], w[k + 1], sx, sy, ex, ey),
    ensures
        spec_on_map_points(w).len() > 0,
        forall|k: int|
            0 <= k < spec_on_map_points(w).len() ==> #[trigger] spec_on_map_points(w)[k] == (Point {
                x: w[k].0 as u32,
                y: w[k].1 as u32,
            }),
    decreases w.len(),
{
    let last = w.last();
    if on_map(last.0 as int, last.1 as int) {
        lemma_walk_monotone(w, sx, sy, ex, ey, w.len() - 1);
        assert forall|k: int| 0 <= k < w.len() implies on_map(#[trigger] w[k].0 as int, w[k].1 as int) by {
            lemma_walk_monotone(w, sx, sy, ex, ey, k);
            assert(walked_past(w[0], w[k], sx, sy, ex, ey));
            assert(walked_past(w[k], w[w.len() - 1], sx, sy, ex, ey));
        }
        lemma_on_map_points_all(w);
        assert forall|k: int| 0 <= k < spec_on_map_points(w).len() implies #[trigger] spec_on_map_points(w)[k] == (Point {
            x: w[k].0 as u32,
            y: w[k].1 as u32,
        }) by {
            assert(spec_points_of(w)[k] == (Point { x: w[k].0 as u32, y: w[k].1 as u32 }));
        }
    } else {
        let init = w.drop_last();
        assert(w.len() > 1);
        assert forall|k: int| 0 <= k < init.len() - 1 implies walk_step(#[trigger] init[k], init[k + 1], sx, sy, ex, ey) by {
            assert(walk_step(w[k], w[k + 1], sx, sy, ex, ey));
        }
        lemma_on_map_prefix(init, sx, sy, ex, ey);
        lemma_on_map_points_len(init);
        assert(spec_on_map_points(w) == spec_on_map_points(init));
        assert forall|k: int| 0 <= k < spec_on_map_points(w).len() implies #[trigger] spec_on_map_points(w)[k] == (Point {
            x: w[k].0 as u32,
            y: w[k].1 as u32,
        }) by {
            assert(spec_on_map_points(init)[k] == (Point { x: init[k].0 as u32, y: init[k].1 as u32 }));
        }
    }
}

/// Whether `a` comes strictly before `b` ordering by `x`, then by `y`.
pub open spec fn lex_lt(a: Point, b: Point) -> bool {
    a.x < b.x || (a.x == b.x && a.y < b.y)
}

/// The point `n` steps from `p` towards `direction`, if every step stays on
/// the map.
pub open spec fn spec_spread(p: Point, n: nat, direction: Direction) -> Option<Point>
    decreases n,
{
    if n == 0 {
        Some(p)
    } else {
        match direction.spec_point_in_direction(p) {
            Some(q) => spec_spread(q, (n - 1) as nat, direction),
            None => None,
        }
    }
}

/// The sequence holding the point of `o`, if any.
pub open spec fn opt_seq(o: Option<Point>) -> Seq<Point> {
    match o {
        Some(p) => seq![p],
        None => Seq::empty(),
    }
}

/// The first of the two directions a cone opening towards `direction`
/// spreads to.
pub open spec fn side_one(direction: Direction) -> Direction {
    if direction is North || direction is South {
        Direction::West
    } else {
        Direction::North
    }
}

/// The second of the two directions a cone opening towards `direction`
/// spreads to.
pub open spec fn side_two(direction: Direction) -> Direction {
    if direction is North || direction is South {
        Direction::East
    } else {
        Direction::South
    }
}

/// The side points of one cone row around `center`: for each `l` in
/// `from..to`, the point `l` steps towards `d1` then the point `l` steps
/// towards `d2`, each when on the map.
pub open spec fn spec_cone_row(center: Point, d1: Direction, d2: Direction, from: nat, to: nat) -> Seq<Point>
    decreases to - from,
{
    if from >= to {
        Seq::empty()
    } else {
        opt_seq(spec_spread(center, from, d1)) + opt_seq(spec_spread(center, from, d2))
            + spec_cone_row(center, d1, d2, from + 1, to)
    }
}

/// The rows `i..distance` of a cone whose previous centre point is `center`:
/// each row is its centre point (one step further towards `direction`)
/// followed by its side points up to `i + 1` steps away. Rows end once the
/// centre line leaves the map.
pub open spec fn spec_cone(center: Point, direction: Direction, i: nat, distance: nat) -> Seq<Point>
    decreases distance - i,
{
    if i >= distance {
        Seq::empty()
    } else {
        match direction.spec_point_in_direction(center) {
            Some(next) => seq![next] + spec_cone_row(next, side_one(direction), side_two(direction), 1, i + 2)
                + spec_cone(next, direction, i + 1, distance),
            None => Seq::empty(),
        }
    }
}

/// Whether `q` lies `l` steps from `c` towards `d1` or towards `d2`, for
/// some `l` in `from..to`.
pub open spec fn in_cone_row(c: Point, d1: Direction, d2: Direction, from: nat, to: nat, q: Point) -> bool {
    exists|l: nat|
        #![trigger spec_spread(c, l, d1)]
        #![trigger spec_spread(c, l, d2)]
        from <= l < to && (spec_spread(c, l, d1) == Some(q) || spec_spread(c, l, d2) == Some(q))
}

/// The points of a cone row are exactly those `from..to` steps to either
/// side of its centre that lie on the map.
pub proof fn lemma_cone_row_members(c: Point, d1: Direction, d2: Direction, from: nat, to: nat)
    ensures
        forall|q: Point| spec_cone_row(c, d1, d2, from, to).contains(q) <==> in_cone_row(c, d1, d2, from, to, q),
    decreases to - from,
{
    if from < to {
        lemma_cone_row_members(c, d1, d2, from + 1, to);
        let here = opt_seq(spec_spread(c, from, d1)) + opt_seq(spec_spread(c, from, d2));
        let rest = spec_cone_row(c, d1, d2, from + 1, to);
        assert(spec_cone_row(c, d1, d2, from, to) == here + rest);
        assert forall|q: Point| spec_cone_row(c, d1, d2, from, to).contains(q) implies in_cone_row(c, d1, d2, from, to, q) by {
            let k = choose|k: int| 0 <= k < (here + rest).len() && (here + rest)[k] == q;
            if k < here.len() {
                assert(here[k] == q);
                if spec_spread(c, from, d1) == Some(q) {
                } else {
                    match spec_spread(c, from, d1) {
                        Some(x) => {
                            if k == 0 {
                                assert(here[0] == x);
                            } else {
                                assert(spec_spread(c, from, d2) == Some(q));
                            }
                        },
                        None => {
                            assert(spec_spread(c, from, d2) == Some(q));
                        },
                    }
                }
                assert(spec_spread(c, from, d1) == Some(q) || spec_spread(c, from, d2) == Some(q));
            } else {
                assert(rest[k - here.len()] == q);
                assert(rest.contains(q));
                assert(in_cone_row(c, d1, d2, from + 1, to, q));
            }
        }
        assert forall|q: Point| in_cone_row(c, d1, d2, from, to, q) implies spec_cone_row(c, d1, d2, from, to).contains(q) by {
            let l = choose|l: nat|
                #![trigger spec_spread(c, l, d1)]
                #![trigger spec_spread(c, l, d2)]
                from <= l < to && (spec_spread(c, l, d1) == Some(q) || spec_spread(c, l, d2) == Some(q));
            if l == from {
                if spec_spread(c, from, d1) == Some(q) {
                    assert((here + rest)[0] == q);
                } else {
                    assert((here + rest)[here.len() - 1] == q);
                }
            } else {
                assert(in_cone_row(c, d1, d2, from + 1, to, q));
                assert(rest.contains(q));
                let k = choose|k: int| 0 <= k < rest.len() && rest[k] == q;
                assert((here + rest)[here.len() + k] == q);
            }
        }
    } else {
        assert forall|q: Point| !in_cone_row(c, d1, d2, from, to, q) by {}
    }
}

/// Whether `q` is in the rows `i..distance` of a cone from `p`: in some such
/// row `j`, whose centre `j - i + 1` steps from `p` lies on the map, `q` is
/// the centre or at most `j + 1` steps to either side of it.
pub open spec fn in_cone_from(p: Point, direction: Direction, i: nat, distance: nat, q: Point) -> bool {
    exists|j: nat|
        #![trigger spec_spread(p, (j - i + 1) as nat, direction)]
        i <= j < distance && match spec_spread(p, (j - i + 1) as nat, direction) {
            Some(c) => q == c || in_cone_row(c, side_one(direction), side_two(direction), 1, j + 2, q),
            None => false,
        }
}

/// The points of a cone are exactly, for each row `j` whose centre lies on
/// the map `j + 1` steps from the origin, that centre and the points up to
/// `j + 1` steps to either side of it that lie on the map.
pub proof fn lemma_cone_members(p: Point, direction: Direction, i: nat, distance: nat)
    ensures
        forall|q: Point| spec_cone(p, direction, i, distance).contains(q) <==> in_cone_from(p, direction, i, distance, q),
    decreases distance - i,
{
    let s1 = side_one(direction);
    let s2 = side_two(direction);
    if i < distance {
        match direction.spec_point_in_direction(p) {
            Some(next) => {
                lemma_cone_members(next, direction, i + 1, distance);
                lemma_cone_row_members(next, s1, s2, 1, i + 2);
                let row = seq![next] + spec_cone_row(next, s1, s2, 1, i + 2);
                let rest = spec_cone(next, direction, i + 1, distance);
                assert(spec_cone(p, direction, i, distance) == row + rest);
                assert forall|j: nat| i < j implies #[trigger] spec_spread(p, (j - i + 1) as nat, direction) == spec_spread(
                    next,
                    (j - (i + 1) + 1) as nat,
                    direction,
                ) by {
                    let n = (j - i + 1) as nat;
                    assert(n >= 1);
                    assert((n - 1) as nat == (j - (i + 1) + 1) as nat);
                    assert(spec_spread(p, n, direction) == spec_spread(next, (n - 1) as nat, direction));
                }
                assert(spec_spread(p, 1, direction) == Some(next)) by {
                    assert(spec_spread(next, 0, direction) == Some(next));
                }
                assert forall|q: Point|
                    spec_cone(p, direction, i, distance).contains(q) <==> in_cone_from(p, direction, i, distance, q) by {
                    if spec_cone(p, direction, i, distance).contains(q) {
                        let k = choose|k: int| 0 <= k < (row + rest).len() && (row + rest)[k] == q;
                        if k < row.len() {
                            assert(row[k] == q);
                            if k > 0 {
                                assert(spec_cone_row(next, s1, s2, 1, i + 2)[k - 1] == q);
                                assert(spec_cone_row(next, s1, s2, 1, i + 2).contains(q));
                            }
                            assert(spec_spread(p, (i - i + 1) as nat, direction) == Some(next));
                        } else {
                            assert(rest[k - row.len()] == q);
                            assert(rest.contains(q));
                            assert(in_cone_from(next, direction, i + 1, distance, q));
                            let j = choose|j: nat|
                                #![trigger spec_spread(next, (j - (i + 1) + 1) as nat, direction)]
                                i + 1 <= j < distance && match spec_spread(next, (j - (i + 1) + 1) as nat, direction) {
                                    Some(c) => q == c || in_cone_row(c, s1, s2, 1, j + 2, q),
                                    None => false,
                                };
                            assert(spec_spread(p, (j - i + 1) as nat, direction) == spec_spread(next, (j - (i + 1) + 1) as nat, direction));
                        }
                    }
                    if in_cone_from(p, direction, i, distance, q) {
                        let j = choose|j: nat|
                            #![trigger spec_spread(p, (j - i + 1) as nat, direction)]
                            i <= j < distance && match spec_spread(p, (j - i + 1) as nat, direction) {
                                Some(c) => q == c || in_cone_row(c, s1, s2, 1, j + 2, q),
                                None => false,
                            };
                        if j == i {
                            assert(spec_spread(p, (j - i + 1) as nat, direction) == Some(next));
                            if q == next {
                                assert((row + rest)[0] == q);
                            } else {
                                assert(spec_cone_row(next, s1, s2, 1, i + 2).contains(q));
                                let cr = spec_cone_row(next, s1, s2, 1, i + 2);
                                let k = choose|k: int| 0 <= k < cr.len() && cr[k] == q;
                                assert((row + rest)[k + 1] == q);
                            }
                        } else {
                            assert(spec_spread(p, (j - i + 1) as nat, direction) == spec_spread(next, (j - (i + 1) + 1) as nat, direction));
                            assert(in_cone_from(next, direction, i + 1, distance, q));
                            let k = choose|k: int| 0 <= k < rest.len() && rest[k] == q;
                            assert((row + rest)[row.len() + k] == q);
                        }
                    }
                }
            },
            None => {
                assert forall|q: Point| !in_cone_from(p, direction, i, distance, q) by {
                    assert forall|j: nat| i <= j implies #[trigger] spec_spread(p, (j - i + 1) as nat, direction) is None by {}
                }
            },
        }
    } else {
        assert forall|q: Point| !in_cone_from(p, direction, i, distance, q) by {}
    }
}

/// The walk from `(sx, sy)` to `(ex, ey)` read as map points.
pub open spec fn spec_points_of(s: Seq<(i32, i32)>) -> Seq<Point> {
    s.map_values(|p: (i32, i32)| Point { x: p.0 as u32, y: p.1 as u32 })
}

/// The points of a walk that lie on the map, in order.
pub open spec fn spec_on_map_points(s: Seq<(i32, i32)>) -> Seq<Point>
    decreases s.len(),
{
    if s.len() == 0 {
        Seq::empty()
    } else {
        let rest = spec_on_map_points(s.drop_last());
        let p = s.last();
        if on_map(p.0 as int, p.1 as int) {
            rest.push(Point { x: p.0 as u32, y: p.1 as u32 })
        } else {
            rest
        }
    }
}

/// The map points of a grid walk, or `None` when the walk is empty.
pub fn points_from_walk(path: &Vec<(i32, i32)>) -> (r: Option<Vec<Point>>)
    ensures
        path@.len() == 0 ==> r is None,
        path@.len() > 0 ==> (r matches Some(v) && v@ == spec_points_of(path@)),
{
    let mut points: Vec<Point> = Vec::new();
    let mut k: usize = 0;
    while k < path.len()
        invariant
            k <= path@.len(),
            points@ == spec_points_of(path@.take(k as int)),
        decreases path@.len() - k,
    {
        let (x, y) = path[k];
        points.push(Point { x: x as u32, y: y as u32 });
        k = k + 1;
        assert(path@.take(k as int) == path@.take(k - 1).push(path@[k - 1]));
    }
    assert(path@.take(k as int) == path@);
    if points.len() > 0 {
        Some(points)
    } else {
        None
    }
}

/// The on-map points of a grid walk.
pub fn on_map_points_from_walk(path: &Vec<(i32, i32)>) -> (r: Vec<Point>)
    ensures
        r@ == spec_on_map_points(path@),
{
    let mut points: Vec<Point> = Vec::new();
    let mut k: usize = 0;
    while k < path.len()
        invariant
            k <= path@.len(),
            points@ == spec_on_map_points(path@.take(k as int)),
        decreases path@.len() - k,
    {
        let (x, y) = path[k];
        assert(path@.take(k + 1).drop_last() == path@.take(k as int));
        if x >= 0 && y >= 0 && y < 13 && x < 13 {
            points.push(Point { x: x as u32, y: y as u32 });
        }
        k = k + 1;
    }
    assert(path@.take(k as int) == path@);
    points
}

/// A walk lying entirely on the map keeps all its points.
pub proof fn lemma_on_map_points_all(s: Seq<(i32, i32)>)
    requires
        forall|k: int| 0 <= k < s.len() ==> on_map(#[trigger] s[k].0 as int, s[k].1 as int),
    ensures
        spec_on_map_points(s) == spec_points_of(s),
    decreases s.len(),
{
    if s.len() > 0 {
        lemma_on_map_points_all(s.drop_last());
        assert(spec_points_of(s) == spec_points_of(s.drop_last()).push(
            Point { x: s.last().0 as u32, y: s.last().1 as u32 },
        ));
    }
}

/// Keeping the on-map points never lengthens a walk.
pub proof fn lemma_on_map_points_len(s: Seq<(i32, i32)>)
    ensures
        spec_on_map_points(s).len() <= s.len(),
    decreases s.len(),
{
    if s.len() > 0 {
        lemma_on_map_points_len(s.drop_last());
    }
}

impl Point {
    /// The point `(x, y)`.
    pub fn init(x: u32, y: u32) -> (r: Point)
        ensures
            r == (Point { x, y }),
    {
        Point { x, y }
    }

    /// Whether this point lies on the map.
    pub fn is_in_bounds(&self) -> (r: bool)
        ensures
            r == (self.x < MAX_POINT_SIZE && self.y < MAX_POINT_SIZE),
    {
        self.x < MAX_POINT_SIZE && self.y < MAX_POINT_SIZE
    }

    /// Whether `p` is within `distance` steps of this point, counted on the
    /// signed coordinates the burst reads (and `p` is within `i32`).
    pub open spec fn in_burst(self, distance: int, p: Point) -> bool {
        &&& p.x <= i32::MAX
        &&& p.y <= i32::MAX
        &&& abs(p.x - as_i32(self.x)) + abs(p.y - as_i32(self.y)) <= distance
    }

    /// Whether the burst computation stays within `i32`.
    pub open spec fn burst_fits(self, distance: u32) -> bool {
        ||| distance > 0x80000000
        ||| (distance < 0x40000000 && i32::MIN <= as_i32(self.x) - distance && as_i32(self.x)
            + distance <= i32::MAX && i32::MIN <= as_i32(self.y) - distance && as_i32(self.y)
            + distance <= i32::MAX)
    }

    /// All points within `distance` steps (Manhattan distance) of this point,
    /// ordered by `x` and then by `y`. A `distance` beyond `i32` gives no point.
    pub fn get_burst(&self, distance: u32) -> (r: Vec<Point>)
        requires
            self.burst_fits(distance),
        ensures
            distance > 0x80000000 ==> r@.len() == 0,
            distance < 0x40000000 ==> {
                &&& forall|k: int| 0 <= k < r@.len() ==> self.in_burst(distance as int, #[trigger] r@[k])
                &&& forall|p: Point| self.in_burst(distance as int, p) ==> r@.contains(p)
                &&& forall|a: int, b: int|
                    0 <= a < b < r@.len() ==> lex_lt(#[trigger] r@[a], #[trigger] r@[b])
            },
    {
        let mut points: Vec<Point> = Vec::new();
        if distance >= 0x80000000 {
            // As an `i32` such a distance is negative: its range of offsets is empty.
            return points;
        }
        let distance: i32 = distance as i32;
        let cx: i32 = self.x as i32;
        let cy: i32 = self.y as i32;
        let mut i: i32 = -distance;
        while i <= distance
            invariant
                0 <= distance < 0x40000000,
                cx == as_i32(self.x),
                cy == as_i32(self.y),
                i32::MIN <= cx - distance,
                cx + distance <= i32::MAX,
                i32::MIN <= cy - distance,
                cy + distance <= i32::MAX,
                -distance <= i <= distance + 1,
                forall|k: int|
                    0 <= k < points@.len() ==> self.in_burst(distance as int, #[trigger] points@[k])
                        && points@[k].x < cx + i,
                forall|p: Point|
                    self.in_burst(distance as int, p) && p.x < cx + i ==> points@.contains(p),
                forall|a: int, b: int|
                    0 <= a < b < points@.len() ==> lex_lt(#[trigger] points@[a], #[trigger] points@[b]),
            decreases distance + 1 - i,
        {
            let mut j: i32 = -distance;
            while j <= distance
                invariant
                    0 <= distance < 0x40000000,
                    cx == as_i32(self.x),
                    cy == as_i32(self.y),
                    i32::MIN <= cx - distance,
                    cx + distance <= i32::MAX,
                    i32::MIN <= cy - distance,
                    cy + distance <= i32::MAX,
                    -distance <= i <= distance,
                    -distance <= j <= distance + 1,
                    forall|k: int|
                        0 <= k < points@.len() ==> self.in_burst(distance as int, #[trigger] points@[k])
                            && (points@[k].x < cx + i || (points@[k].x == cx + i && points@[k].y
                            < cy + j)),
                    forall|p: Point|
                        self.in_burst(distance as int, p) && (p.x < cx + i || (p.x == cx + i && p.y
                            < cy + j)) ==> points@.contains(p),
                    forall|a: int, b: int|
                        0 <= a < b < points@.len() ==> lex_lt(#[trigger] points@[a], #[trigger] points@[b]),
                decreases distance + 1 - j,
            {
                let ai: i32 = if i < 0 {
                    -i
                } else {
                    i
                };
                let aj: i32 = if j < 0 {
                    -j
                } else {
                    j
                };
                let ghost old_points = points@;
                if ai + aj <= distance {
                    let x: i32 = i + cx;
                    let y: i32 = j + cy;
                    if x >= 0 && y >= 0 {
                        let p = Point::init(x as u32, y as u32);
                        points.push(p);
                        assert forall|q: Point|
                            self.in_burst(distance as int, q) && (q.x < cx + i || (q.x == cx + i
                                && q.y < cy + j + 1)) implies points@.contains(q) by {
                            if q.x == cx + i && q.y == cy + j {
                                assert(points@[points@.len() - 1] == q);
                            } else {
                                assert(old_points.contains(q));
                                let w = choose|w: int| 0 <= w < old_points.len() && old_points[w] == q;
                                assert(points@[w] == q);
                            }
                        }
                    }
                }
                j = j + 1;
            }
            i = i + 1;
        }
        points
    }

    /// The point `distance` steps from `p` towards `direction`, or `None` when
    /// a step leaves the map.
    fn get_cone_spread_point(p: Point, distance: u32, direction: Direction) -> (r: Option<Point>)
        requires
            distance > 0 ==> direction.step_fits(p),
        ensures
            r == spec_spread(p, distance as nat, direction),
    {
        let mut current = p;
        let mut k: u32 = 0;
        while k < distance
            invariant
                k <= distance,
                k < distance ==> direction.step_fits(current),
                spec_spread(current, (distance - k) as nat, direction) == spec_spread(
                    p,
                    distance as nat,
                    direction,
                ),
            decreases distance - k,
        {
            if let Some(new_point) = direction.point_in_direction(&current) {
                current = new_point;
            } else {
                return None;
            }
            k = k + 1;
        }
        Some(current)
    }

    /// The points of a cone opening from this point towards `direction` (which
    /// must be North, South, East or West), `distance` rows deep. Row `i`
    /// (from 0) is the centre point `i + 1` steps away followed by the points
    /// `1..=i + 1` steps to either side of it; points off the map are left out,
    /// and rows stop where the centre line leaves the map.
    pub fn get_cone(&self, direction: Direction, distance: u32) -> (r: Vec<Point>)
        requires
            direction.is_cardinal(),
            direction.step_fits(*self),
        ensures
            r@ == spec_cone(*self, direction, 0, distance as nat),
    {
        let mut points: Vec<Point> = Vec::new();
        let mut center = *self;
        let (dir_one, dir_two) = match direction {
            Direction::North | Direction::South => (Direction::West, Direction::East),
            _ => (Direction::North, Direction::South),
        };
        proof {
            assert(points@ + spec_cone(center, direction, 0, distance as nat) =~= spec_cone(
                *self,
                direction,
                0,
                distance as nat,
            ));
        }
        let mut i: u32 = 0;
        while i < distance
            invariant
                direction.is_cardinal(),
                direction.step_fits(center),
                dir_one == side_one(direction),
                dir_two == side_two(direction),
                i <= distance,
                points@ + spec_cone(center, direction, i as nat, distance as nat) == spec_cone(
                    *self,
                    direction,
                    0,
                    distance as nat,
                ),
            decreases distance - i,
        {
            let ghost old_center = center;
            let ghost old_points = points@;
            if let Some(next_center) = direction.point_in_direction(&center) {
                center = next_center;
                points.push(center);
                let end: u64 = i as u64 + 2;
                let mut l: u64 = 1;
                proof {
                    let row = spec_cone_row(center, dir_one, dir_two, 1, end as nat);
                    let tail = spec_cone(center, direction, (i + 1) as nat, distance as nat);
                    assert(spec_cone(old_center, direction, i as nat, distance as nat) == seq![center]
                        + row + tail);
                    assert(old_points + (seq![center] + row + tail) =~= points@ + row + tail);
                }
                while l < end
                    invariant
                        direction.is_cardinal(),
                        center.x < MAX_POINT_SIZE,
                        center.y < MAX_POINT_SIZE,
                        dir_one == side_one(direction),
                        dir_two == side_two(direction),
                        end == i + 2,
                        i < distance,
                        1 <= l <= end,
                        points@ + spec_cone_row(center, dir_one, dir_two, l as nat, end as nat)
                            + spec_cone(center, direction, (i + 1) as nat, distance as nat)
                            == spec_cone(*self, direction, 0, distance as nat),
                    decreases end - l,
                {
                    let ghost before = points@;
                    if let Some(first) = Point::get_cone_spread_point(center, l as u32, dir_one) {
                        points.push(first);
                    }
                    if let Some(first) = Point::get_cone_spread_point(center, l as u32, dir_two) {
                        points.push(first);
                    }
                    proof {
                        let row = spec_cone_row(center, dir_one, dir_two, l as nat, end as nat);
                        let rest_row = spec_cone_row(center, dir_one, dir_two, (l + 1) as nat, end as nat);
                        let tail = spec_cone(center, direction, (i + 1) as nat, distance as nat);
                        assert(row == opt_seq(spec_spread(center, l as nat, dir_one)) + opt_seq(
                            spec_spread(center, l as nat, dir_two),
                        ) + rest_row);
                        assert(points@ == before + opt_seq(spec_spread(center, l as nat, dir_one))
                            + opt_seq(spec_spread(center, l as nat, dir_two)));
                        assert(before + row + tail =~= points@ + rest_row + tail);
                    }
                    l = l + 1;
                }
            } else {
                proof {
                    assert(spec_cone(center, direction, i as nat, distance as nat) =~= Seq::empty());
                    assert(spec_cone(center, direction, (i + 1) as nat, distance as nat) =~= Seq::empty());
                }
            }
            i = i + 1;
        }
        proof {
            assert(points@ =~= points@ + spec_cone(center, direction, i as nat, distance as nat));
        }
        points
    }

    /// Whether a walk from this point to `point` is computed exactly.
    pub open spec fn walk_ok_to(self, point: Point) -> bool {
        walk_ok(as_i32(self.x), as_i32(self.y), as_i32(point.x), as_i32(point.y))
    }

    /// The grid walk from this point to `point`.
    pub open spec fn spec_walk_to(self, point: Point) -> Seq<(i32, i32)> {
        walk_grid(self.x as i32, self.y as i32, point.x as i32, point.y as i32)
    }

    /// The Manhattan distance between this point and `point`, on the
    /// coordinates as the walk reads them.
    pub open spec fn manhattan(self, point: Point) -> int {
        abs(as_i32(point.x) - as_i32(self.x)) + abs(as_i32(point.y) - as_i32(self.y))
    }

    /// The line of points from this point to `point`, both ends included.
    pub fn line_to(&self, point: Point) -> (r: Option<Vec<Point>>)
        requires
            self.walk_ok_to(point),
        ensures
            r matches Some(v) && v@ == spec_points_of(self.spec_walk_to(point)),
            r matches Some(v) && v@.len() == self.manhattan(point) + 1,
            r matches Some(v) && grid_line(v@, *self, point),
    {
        let path = walk_grid_points(self.x as i32, self.y as i32, point.x as i32, point.y as i32);
        proof {
            lemma_walk_is_line(path@, *self, point);
        }
        points_from_walk(&path)
    }

    /// The number of steps from this point to `point`: its Manhattan distance.
    pub fn distance_to(&self, point: Point) -> (r: Option<u32>)
        requires
            self.walk_ok_to(point),
        ensures
            r == Some(self.manhattan(point) as u32),
            self.manhattan(point) <= u32::MAX,
    {
        if let Some(path) = self.line_to(point) {
            Some(path.len() as u32 - 1)  // Path includes both end points

        } else {
            None
        }
    }
}

/// A rectangle of `width` by `height` tiles whose origin is its bottom-left
/// tile: it spreads towards larger `x` and towards smaller `y`.
#[derive(PartialEq, Eq, Structural, Clone, Copy, Debug, Hash)]
pub struct SizedPoint {
    pub origin: Point,
    pub width: u32,
    pub height: u32,
}

/// A point given by signed coordinates, which may lie off the map.
struct ExtendedPoint {
    pub x: i32,
    pub y: i32,
}

impl ExtendedPoint {
    fn init(x: i32, y: i32) -> (r: ExtendedPoint)
        ensures
            r.x == x,
            r.y == y,
    {
        ExtendedPoint { x, y }
    }
}

/// Whether `i` is the first index of a least value of `keys`.
pub open spec fn is_first_min(keys: Seq<int>, i: int) -> bool {
    &&& 0 <= i < keys.len()
    &&& forall|k: int| 0 <= k < keys.len() ==> keys[i] <= #[trigger] keys[k]
    &&& forall|k: int| 0 <= k < i ==> keys[i] < #[trigger] keys[k]
}

/// The first index of a least value of `keys` (meaningful when `keys` is not
/// empty).
pub open spec fn first_min(keys: Seq<int>) -> int {
    choose|i: int| is_first_min(keys, i)
}

/// At most one index is the first index of a least value.
pub proof fn lemma_first_min_unique(keys: Seq<int>, i: int, j: int)
    requires
        is_first_min(keys, i),
        is_first_min(keys, j),
    ensures
        i == j,
{
    if i < j {
        assert(keys[j] < keys[i]);
    } else if j < i {
        assert(keys[i] < keys[j]);
    }
}

/// The index found by a scan for a first least value is `first_min`.
pub proof fn lemma_first_min_is(keys: Seq<int>, i: int)
    requires
        is_first_min(keys, i),
    ensures
        first_min(keys) == i,
{
    lemma_first_min_unique(keys, i, first_min(keys));
}

/// A non-empty list of keys has a first least value.
pub proof fn lemma_first_min_exists(keys: Seq<int>)
    requires
        keys.len() > 0,
    ensures
        is_first_min(keys, first_min(keys)),
    decreases keys.len(),
{
    if keys.len() == 1 {
        assert(is_first_min(keys, 0));
    } else {
        let init = keys.drop_last();
        lemma_first_min_exists(init);
        let i = first_min(init);
        let n = keys.len() - 1;
        assert forall|k: int| 0 <= k < n implies #[trigger] keys[k] == init[k] by {}
        if keys[n] < keys[i] {
            assert forall|k: int| 0 <= k < n implies keys[n] < #[trigger] keys[k] by {
                assert(init[i] <= init[k]);
            }
            assert(is_first_min(keys, n));
        } else {
            assert forall|k: int| 0 <= k < keys.len() implies keys[i] <= #[trigger] keys[k] by {
                if k < n {
                    assert(init[i] <= init[k]);
                }
            }
            assert forall|k: int| 0 <= k < i implies keys[i] < #[trigger] keys[k] by {
                assert(init[i] < init[k]);
            }
            assert(is_first_min(keys, i));
        }
    }
}

/// Number of steps between `p` and the signed target `(tx, ty)`.
pub open spec fn steps_to(p: Point, tx: int, ty: int) -> int {
    abs(tx - as_i32(p.x)) + abs(ty - as_i32(p.y))
}

/// The length of the walk from each of `s` to the signed target `(tx, ty)`.
pub open spec fn walk_lengths(s: Seq<Point>, tx: int, ty: int) -> Seq<int> {
    s.map_values(|p: Point| steps_to(p, tx, ty) + 1)
}

impl SizedPoint {
    /// A single-tile point at `(x, y)`.
    pub fn init(x: u32, y: u32) -> (r: SizedPoint)
        ensures
            r == (SizedPoint { origin: Point { x, y }, width: 1, height: 1 }),
    {
        SizedPoint { origin: Point::init(x, y), width: 1, height: 1 }
    }

    /// A single-tile point at `origin`.
    pub fn from(origin: Point) -> (r: SizedPoint)
        ensures
            r == (SizedPoint { origin, width: 1, height: 1 }),
    {
        SizedPoint::init(origin.x, origin.y)
    }

    /// A `width` by `height` rectangle with its origin at `(x, y)`.
    pub fn init_multi(x: u32, y: u32, width: u32, height: u32) -> (r: SizedPoint)
        ensures
            r == (SizedPoint { origin: Point { x, y }, width, height }),
    {
        SizedPoint { origin: Point::init(x, y), width, height }
    }

    /// Whether the tiles of this rectangle can be listed: their number fits a
    /// `u32` and every tile has unsigned coordinates.
    pub open spec fn positions_fit(self) -> bool {
        &&& self.width * self.height <= u32::MAX
        &&& self.width > 0 && self.height > 0 ==> self.origin.x + self.width - 1 <= u32::MAX
            && self.height - 1 <= self.origin.y
    }

    /// The tiles of this rectangle, row by row from the origin's row upwards
    /// (towards smaller `y`), each row from left to right.
    pub open spec fn spec_all_positions(self) -> Seq<Point> {
        Seq::new(
            (self.width * self.height) as nat,
            |k: int|
                Point {
                    x: (self.origin.x + k % (self.width as int)) as u32,
                    y: (self.origin.y - k / (self.width as int)) as u32,
                },
        )
    }

    /// Whether `p` is one of the tiles of this rectangle.
    pub open spec fn spec_contains(self, p: Point) -> bool {
        &&& self.origin.x <= p.x < self.origin.x + self.width
        &&& self.origin.y - self.height < p.y <= self.origin.y
    }

    /// The tiles of this rectangle, row by row from the origin's row upwards,
    /// each row from left to right.
    pub fn all_positions(&self) -> (r: Vec<Point>)
        requires
            self.positions_fit(),
        ensures
            r@ == self.spec_all_positions(),
    {
        let w = self.width;
        let h = self.height;
        let mut positions: Vec<Point> = Vec::with_capacity((self.width * self.height) as usize);
        let mut y: u32 = 0;
        while y < h
            invariant
                w == self.width,
                h == self.height,
                self.positions_fit(),
                y <= h,
                positions@ =~= self.spec_all_positions().take(y * w),
                self.spec_all_positions().len() == w * h,
            decreases h - y,
        {
            let mut x: u32 = 0;
            while x < w
                invariant
                    w == self.width,
                    h == self.height,
                    self.positions_fit(),
                    y < h,
                    x <= w,
                    positions@ =~= self.spec_all_positions().take(y * w + x),
                    self.spec_all_positions().len() == w * h,
                decreases w - x,
            {
                proof {
                    vstd::arithmetic::div_mod::lemma_fundamental_div_mod_converse(
                        y * w + x,
                        w as int,
                        y as int,
                        x as int,
                    );
                    assert(y * w + x < w * h) by (nonlinear_arith)
                        requires
                            x < w,
                            y < h,
                    ;
                }
                let ghost before = positions@;
                positions.push(Point::init(self.origin.x + x, self.origin.y - y));
                proof {
                    let k = y * w + x;
                    assert(k % (w as int) == x);
                    assert(k / (w as int) == y);
                    assert(self.spec_all_positions()[k] == positions@[k]);
                    assert(positions@ =~= self.spec_all_positions().take(k + 1));
                }
                x = x + 1;
            }
            proof {
                assert(y * w + w == (y + 1) * w) by (nonlinear_arith);
            }
            y = y + 1;
        }
        proof {
            assert(h * w == w * h) by (nonlinear_arith);
            assert(positions@ =~= self.spec_all_positions());
        }
        positions
    }

    /// Whether `point` is one of the tiles of this rectangle.
    pub fn contains_point(&self, point: &Point) -> (r: bool)
        requires
            self.positions_fit(),
        ensures
            r == self.spec_contains(*point),
            r == self.spec_all_positions().contains(*point),
    {
        proof {
            self.lemma_contains_iff_listed(*point);
        }
        point.x >= self.origin.x && point.x - self.origin.x < self.width && point.y <= self.origin.y
            && self.origin.y - point.y < self.height
    }

    /// A point is one of the listed tiles exactly when it lies in the
    /// rectangle.
    pub proof fn lemma_contains_iff_listed(self, p: Point)
        requires
            self.positions_fit(),
        ensures
            self.spec_all_positions().contains(p) <==> self.spec_contains(p),
    {
        let w = self.width as int;
        let h = self.height as int;
        let s = self.spec_all_positions();
        if self.spec_contains(p) {
            let x = p.x - self.origin.x;
            let y = self.origin.y - p.y;
            let k = y * w + x;
            vstd::arithmetic::div_mod::lemma_fundamental_div_mod_converse(k, w, y, x);
            assert(0 <= k < w * h) by (nonlinear_arith)
                requires
                    0 <= x < w,
                    0 <= y < h,
                    k == y * w + x,
            ;
            assert(s[k] == p);
        }
        if s.contains(p) {
            let k = choose|k: int| 0 <= k < s.len() && s[k] == p;
            self.lemma_listed_contained(k);
        }
    }

    /// Each listed tile lies in the rectangle.
    pub proof fn lemma_listed_contained(self, k: int)
        requires
            self.positions_fit(),
            0 <= k < self.width * self.height,
        ensures
            self.spec_contains(self.spec_all_positions()[k]),
    {
        let w = self.width as int;
        let h = self.height as int;
        assert(w > 0) by (nonlinear_arith)
            requires
                0 <= k < w * h,
                h >= 0,
        ;
        vstd::arithmetic::div_mod::lemma_fundamental_div_mod(k, w);
        let q = k / w;
        let r = k % w;
        assert(0 <= r < w) by {
            vstd::arithmetic::div_mod::lemma_mod_bound(k, w);
        }
        assert(0 <= q < h) by (nonlinear_arith)
            requires
                k == w * q + r,
                0 <= r < w,
                0 <= k < w * h,
                w > 0,
        ;
    }

    /// The single tile of a one-tile point.
    pub fn single_position(&self) -> (r: Point)
        requires
            self.width == 1 && self.height == 1,
        ensures
            r == self.origin,
    {
        self.origin
    }

    /// This rectangle moved so that its origin is `position`.
    pub fn move_to(&self, position: Point) -> (r: SizedPoint)
        ensures
            r == (SizedPoint { origin: position, width: self.width, height: self.height }),
    {
        SizedPoint { origin: position, width: self.width, height: self.height }
    }

    /// Whether every tile of this rectangle can walk to the signed target
    /// `(tx, ty)`.
    pub open spec fn walks_ok_to(self, tx: int, ty: int) -> bool {
        &&& self.positions_fit()
        &&& forall|p: Point|
            #[trigger] self.spec_contains(p) ==> walk_ok(as_i32(p.x), as_i32(p.y), tx, ty)
    }

    /// The tile of this rectangle from which the walk to `(tx, ty)` is
    /// shortest (the first such tile in `all_positions` order).
    pub open spec fn spec_nearest(self, tx: int, ty: int) -> Point {
        let s = self.spec_all_positions();
        s[first_min(walk_lengths(s, tx, ty))]
    }

    /// Whether every tile of this rectangle lies on the map.
    pub open spec fn tiles_on_map(self) -> bool {
        forall|p: Point| #[trigger] self.spec_contains(p) ==> p.x < MAX_POINT_SIZE && p.y < MAX_POINT_SIZE
    }

    /// The nearest tile to `(tx, ty)` is a tile of the rectangle, and no tile
    /// of the rectangle is fewer steps away.
    pub proof fn lemma_nearest(self, tx: int, ty: int)
        requires
            self.positions_fit(),
            self.width * self.height > 0,
        ensures
            self.spec_contains(self.spec_nearest(tx, ty)),
            forall|c: Point|
                #[trigger] self.spec_contains(c) ==> steps_to(self.spec_nearest(tx, ty), tx, ty) <= steps_to(c, tx, ty),
    {
        let s = self.spec_all_positions();
        let keys = walk_lengths(s, tx, ty);
        lemma_first_min_exists(keys);
        let i = first_min(keys);
        self.lemma_listed_contained(i);
        assert forall|c: Point| #[trigger] self.spec_contains(c) implies steps_to(
            self.spec_nearest(tx, ty),
            tx,
            ty,
        ) <= steps_to(c, tx, ty) by {
            self.lemma_contains_iff_listed(c);
            let k = choose|k: int| 0 <= k < s.len() && s[k] == c;
            assert(keys[i] <= keys[k]);
        }
    }

    /// The on-map points of the walk from the nearest tile to `(tx, ty)`, or
    /// `None` when the rectangle has no tile.
    pub open spec fn spec_line_to_extended(self, tx: int, ty: int) -> Option<Seq<Point>> {
        if self.width * self.height == 0 {
            None
        } else {
            let n = self.spec_nearest(tx, ty);
            Some(spec_on_map_points(walk_grid(n.x as i32, n.y as i32, tx as i32, ty as i32)))
        }
    }

    #[verifier::rlimit(40)]
    fn line_to_extended(&self, point: ExtendedPoint) -> (r: Option<Vec<Point>>)
        requires
            self.walks_ok_to(point.x as int, point.y as int),
        ensures
            r matches Some(v) ==> self.spec_line_to_extended(point.x as int, point.y as int) == Some(v@),
            r is None ==> self.spec_line_to_extended(point.x as int, point.y as int) is None,
            r matches Some(v) ==> v@.len() <= 2 * WALK_LIMIT + 1,
            r matches Some(v) ==> (on_map(
                as_i32(self.spec_nearest(point.x as int, point.y as int).x),
                as_i32(self.spec_nearest(point.x as int, point.y as int).y),
            ) ==> v@.len() > 0),
            r matches Some(v) ==> (on_map(
                as_i32(self.spec_nearest(point.x as int, point.y as int).x),
                as_i32(self.spec_nearest(point.x as int, point.y as int).y),
            ) && on_map(point.x as int, point.y as int) ==> grid_line(
                v@,
                self.spec_nearest(point.x as int, point.y as int),
                Point { x: point.x as u32, y: point.y as u32 },
            )),
            r matches Some(v) ==> (on_map(
                as_i32(self.spec_nearest(point.x as int, point.y as int).x),
                as_i32(self.spec_nearest(point.x as int, point.y as int).y),
            ) ==> walk_prefix(
                v@,
                self.spec_nearest(point.x as int, point.y as int),
                Point { x: point.x as u32, y: point.y as u32 },
            )),
    {
        let positions = self.all_positions();
        if positions.len() == 0 {
            return None;
        }
        let ghost tx = point.x as int;
        let ghost ty = point.y as int;
        let ghost keys = walk_lengths(positions@, tx, ty);
        proof {
            self.lemma_listed_contained(0);
        }
        let mut best: usize = 0;
        let mut best_len: usize = walk_grid_points(
            positions[0].x as i32,
            positions[0].y as i32,
            point.x,
            point.y,
        ).len();
        let mut k: usize = 1;
        while k < positions.len()
            invariant
                positions@ == self.spec_all_positions(),
                self.walks_ok_to(tx, ty),
                tx == point.x,
                ty == point.y,
                keys == walk_lengths(positions@, tx, ty),
                1 <= k <= positions@.len(),
                best < k,
                best_len == keys[best as int],
                forall|j: int| 0 <= j < k ==> keys[best as int] <= #[trigger] keys[j],
                forall|j: int| 0 <= j < best ==> keys[best as int] < #[trigger] keys[j],
            decreases positions@.len() - k,
        {
            proof {
                self.lemma_listed_contained(k as int);
            }
            let len = walk_grid_points(positions[k].x as i32, positions[k].y as i32, point.x, point.y).len();
            if len < best_len {
                best = k;
                best_len = len;
            }
            k = k + 1;
        }
        proof {
            lemma_first_min_is(keys, best as int);
            self.lemma_listed_contained(best as int);
        }
        let walk = walk_grid_points(positions[best].x as i32, positions[best].y as i32, point.x, point.y);
        proof {
            lemma_on_map_points_len(walk@);
            if on_map(as_i32(positions@[best as int].x), as_i32(positions@[best as int].y)) {
                lemma_on_map_points_has(walk@, 0);
                let from = positions@[best as int];
                let to = Point { x: point.x as u32, y: point.y as u32 };
                let v = spec_on_map_points(walk@);
                lemma_on_map_prefix(walk@, as_i32(from.x), as_i32(from.y), tx, ty);
                lemma_on_map_points_on_map(walk@);
                lemma_u32_round_trip(from.x);
                lemma_u32_round_trip(from.y);
                lemma_i32_round_trip(point.x);
                lemma_i32_round_trip(point.y);
                assert(v[0] == from);
                assert forall|k: int| 0 <= k < v.len() - 1 implies line_step(#[trigger] v[k], v[k + 1], from, to) by {
                    lemma_on_map_points_len(walk@);
                    lemma_i32_round_trip(walk@[k].0);
                    lemma_i32_round_trip(walk@[k].1);
                    lemma_i32_round_trip(walk@[k + 1].0);
                    lemma_i32_round_trip(walk@[k + 1].1);
                    assert(v[k + 1] == (Point { x: walk@[k + 1].0 as u32, y: walk@[k + 1].1 as u32 }));
                    assert(walk_step(walk@[k], walk@[k + 1], as_i32(from.x), as_i32(from.y), tx, ty));
                }
                assert(walk_prefix(v, from, to));
                if on_map(tx, ty) {
                    let from = positions@[best as int];
                    let to = Point { x: point.x as u32, y: point.y as u32 };
                    lemma_i32_round_trip(point.x);
                    lemma_i32_round_trip(point.y);
                    assert forall|k: int| 0 <= k < walk@.len() implies on_map(
                        #[trigger] walk@[k].0 as int,
                        walk@[k].1 as int,
                    ) by {
                        assert(between(walk@[k].0 as int, from.x as i32 as int, point.x as int));
                        assert(between(walk@[k].1 as int, from.y as i32 as int, point.y as int));
                    }
                    lemma_on_map_points_all(walk@);
                    lemma_walk_is_line(walk@, from, to);
                }
            }
        }
        Some(on_map_points_from_walk(&walk))
    }

    /// The on-map points of the walk to `point` from this rectangle's nearest
    /// tile, or `None` when the rectangle has no tile.
    pub fn line_to(&self, point: Point) -> (r: Option<Vec<Point>>)
        requires
            self.walks_ok_to(as_i32(point.x), as_i32(point.y)),
        ensures
            r matches Some(v) ==> self.spec_line_to_extended(as_i32(point.x), as_i32(point.y)) == Some(v@),
            r is None ==> self.spec_line_to_extended(as_i32(point.x), as_i32(point.y)) is None,
            r matches Some(v) ==> v@.len() <= 2 * WALK_LIMIT + 1,
            r matches Some(v) ==> (self.tiles_on_map() ==> v@.len() > 0),
            r matches Some(v) ==> (self.tiles_on_map() && point.x < MAX_POINT_SIZE && point.y < MAX_POINT_SIZE
                ==> grid_line(v@, self.spec_nearest(as_i32(point.x), as_i32(point.y)), point)),
    {
        let r = self.line_to_extended(ExtendedPoint::init(point.x as i32, point.y as i32));
        proof {
            if r is Some && self.tiles_on_map() {
                self.lemma_nearest(as_i32(point.x), as_i32(point.y));
                lemma_u32_round_trip(point.x);
                lemma_u32_round_trip(point.y);
            }
        }
        r
    }

    /// Whether the walk to `(tx, ty)` keeps at least one on-map point
    /// whenever the rectangle has a tile.
    pub open spec fn line_reaches_map(self, tx: int, ty: int) -> bool {
        self.spec_line_to_extended(tx, ty) matches Some(v) ==> v.len() > 0
    }

    /// Whether the distance from this rectangle to `point` can be measured:
    /// every walk is computed exactly and the line keeps an on-map point.
    pub open spec fn distance_ready(self, point: Point) -> bool {
        &&& self.walks_ok_to(as_i32(point.x), as_i32(point.y))
        &&& self.tiles_on_map() || self.line_reaches_map(as_i32(point.x), as_i32(point.y))
    }

    /// From a rectangle on the map, the distance to any point on the map can
    /// be measured.
    pub proof fn lemma_distance_ready_on_map(self, point: Point)
        requires
            self.positions_fit(),
            self.tiles_on_map(),
            point.x < MAX_POINT_SIZE && point.y < MAX_POINT_SIZE,
        ensures
            self.distance_ready(point),
    {
        assert forall|p: Point| #[trigger] self.spec_contains(p) implies walk_ok(
            as_i32(p.x),
            as_i32(p.y),
            as_i32(point.x),
            as_i32(point.y),
        ) by {
            assert(p.x < MAX_POINT_SIZE && p.y < MAX_POINT_SIZE);
        }
    }

    /// Whether the first on-map point of the line from this rectangle to
    /// `point` and the steps along it are `r`, when both lie on the map: the
    /// line starts at the nearest tile, and no tile is fewer steps away.
    pub open spec fn measured_on_map(self, point: Point, r: Option<(Point, u32)>) -> bool {
        self.tiles_on_map() && point.x < MAX_POINT_SIZE && point.y < MAX_POINT_SIZE && self.width * self.height > 0 ==> (
        r matches Some((s, d)) && {
            &&& s == self.spec_nearest(point.x as int, point.y as int)
            &&& self.spec_contains(s)
            &&& d == steps_to(s, point.x as int, point.y as int)
            &&& forall|c: Point| #[trigger] self.spec_contains(c) ==> d <= steps_to(c, point.x as int, point.y as int)
        })
    }

    /// The first on-map point of the line to `point` and the number of steps
    /// along that line.
    pub open spec fn spec_distance_with_initial(self, point: Point) -> Option<(Point, u32)> {
        match self.spec_line_to_extended(as_i32(point.x), as_i32(point.y)) {
            Some(v) => Some((v[0], (v.len() - 1) as u32)),
            None => None,
        }
    }

    /// The number of steps along the line to `point`.
    pub open spec fn spec_distance_to(self, point: Point) -> Option<u32> {
        match self.spec_distance_with_initial(point) {
            Some(d) => Some(d.1),
            None => None,
        }
    }

    /// The first on-map point of the line from this rectangle to `point`,
    /// and the number of steps along that line; `None` when the rectangle has
    /// no tile.
    pub fn distance_with_initial(&self, point: Point) -> (r: Option<(Point, u32)>)
        requires
            self.distance_ready(point),
        ensures
            r == self.spec_distance_with_initial(point),
            self.measured_on_map(point, r),
    {
        let line = self.line_to(point);
        proof {
            if line is Some && self.tiles_on_map() && point.x < MAX_POINT_SIZE && point.y < MAX_POINT_SIZE {
                self.lemma_nearest(as_i32(point.x), as_i32(point.y));
            }
            if self.width * self.height > 0 {
                assert(line is Some);
            }
        }
        if let Some(path) = line {
            Some((path[0], path.len() as u32 - 1))  // Path includes both end points

        } else {
            None
        }
    }

    /// The number of steps along the line from this rectangle to `point`;
    /// `None` when the rectangle has no tile.
    pub fn distance_to(&self, point: Point) -> (r: Option<u32>)
        requires
            self.distance_ready(point),
        ensures
            r == self.spec_distance_to(point),
            self.tiles_on_map() && point.x < MAX_POINT_SIZE && point.y < MAX_POINT_SIZE && self.width * self.height > 0
                ==> r == Some(steps_to(self.spec_nearest(point.x as int, point.y as int), point.x as int, point.y as int) as u32),
            self.tiles_on_map() && point.x < MAX_POINT_SIZE && point.y < MAX_POINT_SIZE && self.width * self.height > 0
                ==> forall|c: Point| #[trigger] self.spec_contains(c) ==> r->0 <= steps_to(c, point.x as int, point.y as int),
    {
        if let Some((_, first)) = self.distance_with_initial(point) {
            Some(first)
        } else {
            None
        }
    }

    /// Whether the distance from this rectangle to every tile of `point` can
    /// be measured.
    pub open spec fn multi_distance_ready(self, point: SizedPoint) -> bool {
        &&& point.positions_fit()
        &&& forall|q: Point| #[trigger] point.spec_contains(q) ==> self.distance_ready(q)
    }

    /// The tile of `point` nearest to this rectangle (the first such tile in
    /// `all_positions` order), a missing distance counting as the nearest.
    pub open spec fn spec_nearest_target(self, point: SizedPoint) -> Point {
        let ts = point.spec_all_positions();
        ts[first_min(distance_keys(self, ts))]
    }

    /// The first point of the line from this rectangle to the nearest tile of
    /// `point`, that tile, and the number of steps between them.
    pub open spec fn spec_distance_to_multi_with_endpoints(self, point: SizedPoint) -> Option<
        (Point, Point, u32),
    > {
        if point.width * point.height == 0 {
            None
        } else {
            let t = self.spec_nearest_target(point);
            match self.spec_distance_with_initial(t) {
                Some((s, d)) => Some((s, t, d)),
                None => None,
            }
        }
    }

    /// Whether `d` is a distance from this rectangle to `q` that no tile of
    /// the rectangle beats.
    pub open spec fn closest_within(self, q: Point, d: Option<u32>) -> bool {
        d matches Some(v) && forall|a: Point| #[trigger] self.spec_contains(a) ==> v <= steps_to(a, q.x as int, q.y as int)
    }

    /// Whether `r` holds, when both rectangles lie on the map and have tiles,
    /// a tile of each and the steps between them, no pair of tiles being
    /// fewer steps apart.
    pub open spec fn closest_pair_on_map(self, point: SizedPoint, r: Option<(Point, Point, u32)>) -> bool {
        self.tiles_on_map() && point.tiles_on_map() && self.width * self.height > 0 && point.width * point.height > 0 ==> (
        r matches Some((s, t, d)) && {
            &&& self.spec_contains(s)
            &&& point.spec_contains(t)
            &&& d == steps_to(s, t.x as int, t.y as int)
            &&& forall|a: Point, b: Point|
                #[trigger] self.spec_contains(a) && #[trigger] point.spec_contains(b) ==> d <= steps_to(a, b.x as int, b.y as int)
        })
    }

    /// The number of steps from this rectangle to the nearest tile of `point`.
    pub open spec fn spec_distance_to_multi(self, point: SizedPoint) -> Option<u32> {
        match self.spec_distance_to_multi_with_endpoints(point) {
            Some(d) => Some(d.2),
            None => None,
        }
    }

    /// The first point of the line from this rectangle to the nearest tile of
    /// `point`, that tile, and the number of steps between them; `None` when
    /// either rectangle has no tile.
    pub fn distance_to_multi_with_endpoints(&self, point: SizedPoint) -> (r: Option<(Point, Point, u32)>)
        requires
            self.multi_distance_ready(point),
        ensures
            r == self.spec_distance_to_multi_with_endpoints(point),
            self.closest_pair_on_map(point, r),
    {
        let target_positions = point.all_positions();
        let ghost on_map_case = self.tiles_on_map() && point.tiles_on_map() && self.width * self.height > 0;
        if target_positions.len() == 0 {
            return None;
        }
        let ghost keys = distance_keys(*self, target_positions@);
        proof {
            point.lemma_listed_contained(0);
        }
        let mut best: usize = 0;
        let mut best_distance = self.distance_to(target_positions[0]);
        proof {
            if on_map_case {
                assert(point.spec_contains(target_positions@[0]));
                assert(self.closest_within(target_positions@[0], self.spec_distance_to(target_positions@[0])));
            }
        }
        let mut k: usize = 1;
        while k < target_positions.len()
            invariant
                target_positions@ == point.spec_all_positions(),
                self.multi_distance_ready(point),
                keys == distance_keys(*self, target_positions@),
                1 <= k <= target_positions@.len(),
                best < k,
                best_distance == self.spec_distance_to(target_positions@[best as int]),
                forall|j: int| 0 <= j < k ==> keys[best as int] <= #[trigger] keys[j],
                forall|j: int| 0 <= j < best ==> keys[best as int] < #[trigger] keys[j],
                on_map_case == (self.tiles_on_map() && point.tiles_on_map() && self.width * self.height > 0),
                on_map_case ==> forall|j: int|
                    0 <= j < k ==> #[trigger] self.closest_within(target_positions@[j], self.spec_distance_to(target_positions@[j])),
            decreases target_positions@.len() - k,
        {
            proof {
                point.lemma_listed_contained(k as int);
            }
            let distance = self.distance_to(target_positions[k]);
            proof {
                if on_map_case {
                    assert(point.spec_contains(target_positions@[k as int]));
                    assert(self.closest_within(target_positions@[k as int], self.spec_distance_to(target_positions@[k as int])));
                }
            }
            let closer = match (distance, best_distance) {
                (None, Some(_)) => true,
                (Some(a), Some(b)) => a < b,
                _ => false,
            };
            if closer {
                best = k;
                best_distance = distance;
            }
            k = k + 1;
        }
        proof {
            lemma_first_min_is(keys, best as int);
            point.lemma_listed_contained(best as int);
        }
        let shortest_target = target_positions[best];
        let measured = self.distance_with_initial(shortest_target);
        proof {
            if on_map_case && point.width * point.height > 0 {
                assert(point.spec_contains(shortest_target));
                assert forall|a: Point, b: Point|
                    #[trigger] self.spec_contains(a) && #[trigger] point.spec_contains(b) implies (measured->0).1 <= steps_to(
                    a,
                    b.x as int,
                    b.y as int,
                ) by {
                    point.lemma_contains_iff_listed(b);
                    let j = choose|j: int| 0 <= j < target_positions@.len() && target_positions@[j] == b;
                    assert(self.closest_within(target_positions@[j], self.spec_distance_to(target_positions@[j])));
                    assert(keys[best as int] <= keys[j]);
                    assert(self.closest_within(shortest_target, self.spec_distance_to(shortest_target)));
                }
            }
        }
        if let Some((source, distance)) = measured {
            Some((source, shortest_target, distance))
        } else {
            None
        }
    }

    /// The number of steps from this rectangle to the nearest tile of
    /// `point`; `None` when either rectangle has no tile.
    pub fn distance_to_multi(&self, point: SizedPoint) -> (r: Option<u32>)
        requires
            self.multi_distance_ready(point),
        ensures
            r == self.spec_distance_to_multi(point),
            self.tiles_on_map() && point.tiles_on_map() && self.width * self.height > 0 && point.width * point.height > 0
                ==> (r matches Some(d) && (exists|s: Point, t: Point|
                #![trigger self.spec_contains(s), point.spec_contains(t)]
                self.spec_contains(s) && point.spec_contains(t) && d == steps_to(s, t.x as int, t.y as int)) && forall|
                a: Point,
                b: Point,
            | #[trigger] self.spec_contains(a) && #[trigger] point.spec_contains(b) ==> d <= steps_to(a, b.x as int, b.y as int)),
    {
        if let Some((_, _, first)) = self.distance_to_multi_with_endpoints(point) {
            Some(first)
        } else {
            None
        }
    }
}

/// How a measured distance ranks: a missing distance first, then by steps.
pub open spec fn distance_key(d: Option<u32>) -> int {
    match d {
        Some(v) => v as int,
        None => -1,
    }
}

/// The rank of the distance from `from` to each of `targets`.
pub open spec fn distance_keys(from: SizedPoint, targets: Seq<Point>) -> Seq<int> {
    targets.map_values(|q: Point| distance_key(from.spec_distance_to(q)))
}

/// Whether a grid walk between these coordinates is computed exactly.
pub fn walk_ok_exec(start_x: i64, start_y: i64, end_x: i64, end_y: i64) -> (r: bool)
    requires
        -0x10000000000 <= start_x <= 0x10000000000,
        -0x10000000000 <= start_y <= 0x10000000000,
        -0x10000000000 <= end_x <= 0x10000000000,
        -0x10000000000 <= end_y <= 0x10000000000,
    ensures
        r == walk_ok(start_x as int, start_y as int, end_x as int, end_y as int),
{
    let limit = WALK_LIMIT as i64;
    let dx = if end_x >= start_x {
        end_x - start_x
    } else {
        start_x - end_x
    };
    let dy = if end_y >= start_y {
        end_y - start_y
    } else {
        start_y - end_y
    };
    (i32::MIN as i64) <= start_x && start_x <= (i32::MAX as i64) && (i32::MIN as i64) <= start_y
        && start_y <= (i32::MAX as i64) && (i32::MIN as i64) < end_x && end_x < (i32::MAX as i64)
        && (i32::MIN as i64) < end_y && end_y < (i32::MAX as i64) && dx <= limit && dy <= limit
}

/// The on-map points of the walk from `ending` by `(dx, dy)`: the piece a
/// line is extended by.
pub open spec fn spec_extension(ending: Point, dx: int, dy: int) -> Seq<Point> {
    spec_on_map_points(
        walk_grid(
            ending.x as i32,
            ending.y as i32,
            (as_i32(ending.x) + dx) as i32,
            (as_i32(ending.y) + dy) as i32,
        ),
    )
}

/// Whether a line ending at `ending` can be extended by `(dx, dy)`: the walk
/// is computed exactly and keeps an on-map point.
pub open spec fn extension_ready(ending: Point, dx: int, dy: int) -> bool {
    &&& walk_ok(as_i32(ending.x), as_i32(ending.y), as_i32(ending.x) + dx, as_i32(ending.y) + dy)
    &&& spec_extension(ending, dx, dy).len() > 0
}

/// `line` repeatedly extended from its last point by `(dx, dy)` (keeping
/// on-map points only, and not repeating the point it starts from), until
/// it has at least `length` points or an extension adds nothing; then cut
/// to `length` points.
pub open spec fn spec_extend(line: Seq<Point>, dx: int, dy: int, length: nat) -> Seq<Point>
    decreases length - line.len(),
{
    if line.len() == 0 {
        line
    } else {
        let ext = spec_extension(line.last(), dx, dy);
        let next = if ext.len() == 0 {
            line
        } else {
            line + ext.skip(1)
        };
        if next.len() >= length || ext.len() <= 1 {
            if next.len() > length {
                next.take(length as int)
            } else {
                next
            }
        } else {
            spec_extend(next, dx, dy, length)
        }
    }
}

/// Whether every point of `points` lies on the map.
pub open spec fn line_on_map(points: Seq<Point>) -> bool {
    forall|k: int| 0 <= k < points.len() ==> (#[trigger] points[k]).x < MAX_POINT_SIZE && points[k].y < MAX_POINT_SIZE
}

/// Whether the point at `j` of `line` lies on the map, one step along x or
/// along y from the point before it, in the direction `points` runs.
pub open spec fn on_map_step(line: Seq<Point>, j: int, points: Seq<Point>) -> bool {
    &&& line[j].x < MAX_POINT_SIZE && line[j].y < MAX_POINT_SIZE
    &&& line_step(line[j - 1], line[j], points[0], points.last())
}

/// Whether every point `line` holds past those of `points` lies on the map,
/// one step along x or along y from the one before it, in the direction
/// `points` runs.
pub open spec fn extended_by_steps(line: Seq<Point>, points: Seq<Point>) -> bool {
    forall|j: int| points.len() <= j < line.len() ==> #[trigger] on_map_step(line, j, points)
}

/// The step `(dx, dy)` from the first to the last point of `points`.
pub open spec fn path_delta(points: Seq<Point>) -> (int, int) {
    (
        as_i32(points.last().x) - as_i32(points[0].x),
        as_i32(points.last().y) - as_i32(points[0].y),
    )
}

/// Whether `points` can be extended along itself: it is not empty, its step
/// fits an `i32`, and the first extension is ready.
pub open spec fn extend_ready(points: Seq<Point>) -> bool {
    &&& points.len() > 0
    &&& i32::MIN <= path_delta(points).0 <= i32::MAX
    &&& i32::MIN <= path_delta(points).1 <= i32::MAX
    &&& extension_ready(points.last(), path_delta(points).0, path_delta(points).1)
}

/// Every kept point of a walk is on the map.
pub proof fn lemma_on_map_points_on_map(s: Seq<(i32, i32)>)
    ensures
        forall|k: int|
            0 <= k < spec_on_map_points(s).len() ==> (#[trigger] spec_on_map_points(s)[k]).x
                < MAX_POINT_SIZE && spec_on_map_points(s)[k].y < MAX_POINT_SIZE,
    decreases s.len(),
{
    if s.len() > 0 {
        lemma_on_map_points_on_map(s.drop_last());
        let rest = spec_on_map_points(s.drop_last());
        let r = spec_on_map_points(s);
        assert forall|k: int| 0 <= k < r.len() implies (#[trigger] r[k]).x < MAX_POINT_SIZE && r[k].y
            < MAX_POINT_SIZE by {
            if k < rest.len() {
                assert(r[k] == rest[k]);
            }
        }
    }
}

/// A walk with an on-map point keeps at least one point.
pub proof fn lemma_on_map_points_has(s: Seq<(i32, i32)>, k: int)
    requires
        0 <= k < s.len(),
        on_map(s[k].0 as int, s[k].1 as int),
    ensures
        spec_on_map_points(s).len() > 0,
    decreases s.len(),
{
    if k < s.len() - 1 {
        lemma_on_map_points_has(s.drop_last(), k);
    }
}

/// The line from a single tile is the walk from that tile.
pub proof fn lemma_single_line(p: Point, tx: int, ty: int)
    ensures
        (SizedPoint { origin: p, width: 1, height: 1 }).spec_line_to_extended(tx, ty) == Some(
            spec_on_map_points(walk_grid(p.x as i32, p.y as i32, tx as i32, ty as i32)),
        ),
        (SizedPoint { origin: p, width: 1, height: 1 }).spec_nearest(tx, ty) == p,
{
    let sp = SizedPoint { origin: p, width: 1, height: 1 };
    let s = sp.spec_all_positions();
    assert(s.len() == 1);
    assert(s[0] == p);
    let keys = walk_lengths(s, tx, ty);
    assert(is_first_min(keys, 0));
    lemma_first_min_is(keys, 0);
}

/// `points` extended along its own direction (from its first to its last
/// point) until it holds `length` points or the extension reaches the map's
/// edge; then cut to `length` points.
pub fn extend_line_along_path(points: &[Point], length: u32) -> (r: Vec<Point>)
    requires
        extend_ready(points@),
    ensures
        r@ == spec_extend(points@, path_delta(points@).0, path_delta(points@).1, length as nat),
        r@.len() <= length,
        r@.len() >= points@.len() || r@.len() == length,
        forall|k: int| 0 <= k < r@.len() && k < points@.len() ==> #[trigger] r@[k] == points@[k],
        line_on_map(points@) ==> extended_by_steps(r@, points@),
{
    let starting = points[0];
    let ending = points[points.len() - 1];

    let delta_x: i32 = ending.x as i32 - starting.x as i32;
    let delta_y: i32 = ending.y as i32 - starting.y as i32;
    let ghost dx = delta_x as int;
    let ghost dy = delta_y as int;
    let ghost n = points@.len();
    let ghost first = points@[0];
    let ghost final_point = points@.last();
    let ghost last_on_map = line_on_map(points@);

    let mut line = vstd::slice::slice_to_vec(points);
    proof {
        assert(line@.subrange(0, n as int) =~= points@);
    }
    loop
        invariant
            line@.len() >= 1,
            dx == path_delta(points@).0,
            dy == path_delta(points@).1,
            dx == delta_x,
            dy == delta_y,
            abs(dx) <= WALK_LIMIT,
            abs(dy) <= WALK_LIMIT,
            walk_ok(
                as_i32(line@.last().x),
                as_i32(line@.last().y),
                as_i32(line@.last().x) + dx,
                as_i32(line@.last().y) + dy,
            ),
            on_map(as_i32(line@.last().x), as_i32(line@.last().y)) || extension_ready(line@.last(), dx, dy),
            spec_extend(line@, dx, dy, length as nat) == spec_extend(points@, dx, dy, length as nat),
            n == points@.len(),
            n >= 1,
            first == points@[0],
            final_point == points@.last(),
            last_on_map == line_on_map(points@),
            line@.len() >= n,
            line@.subrange(0, n as int) == points@,
            last_on_map ==> extended_by_steps(line@, points@),
            last_on_map ==> line@.last().x < MAX_POINT_SIZE && line@.last().y < MAX_POINT_SIZE,
        decreases length - line@.len(),
    {
        let ending = SizedPoint::from(line[line.len() - 1]);
        let ghost last = line@.last();
        proof {
            assert forall|p: Point| #[trigger] ending.spec_contains(p) implies walk_ok(
                as_i32(p.x),
                as_i32(p.y),
                as_i32(last.x) + dx,
                as_i32(last.y) + dy,
            ) by {
                assert(p == last);
            }
            lemma_single_line(last, as_i32(last.x) + dx, as_i32(last.y) + dy);
            assert(ending.width * ending.height == 1) by (nonlinear_arith)
                requires
                    ending.width == 1,
                    ending.height == 1,
            ;
            assert(ending.positions_fit());
            assert(ending.walks_ok_to(as_i32(last.x) + dx, as_i32(last.y) + dy));
        }
        let target = ExtendedPoint::init(ending.origin.x as i32 + delta_x, ending.origin.y as i32 + delta_y);
        let extension = ending.line_to_extended(target).unwrap();
        let ghost before = line@;
        let ghost to = Point { x: target.x as u32, y: target.y as u32 };
        proof {
            assert(extension@ == spec_extension(last, dx, dy));
            assert(extension@.len() > 0);
            if last_on_map {
                assert(walk_prefix(extension@, last, to));
                lemma_i32_round_trip(target.x);
                lemma_i32_round_trip(target.y);
                assert forall|k: int| 0 <= k < extension@.len() - 1 implies line_step(
                    #[trigger] extension@[k],
                    extension@[k + 1],
                    first,
                    final_point,
                ) by {
                    assert(line_step(extension@[k], extension@[k + 1], last, to));
                }
            }
        }
        let mut k: usize = 1;
        while k < extension.len()
            invariant
                1 <= k <= extension@.len(),
                line@ == before + extension@.subrange(1, k as int),
                before.len() >= n,
                n >= 1,
                before.last() == last,
                last_on_map ==> extended_by_steps(before, points@),
                last_on_map ==> extension@[0] == last,
                last_on_map ==> forall|j: int|
                    0 <= j < extension@.len() - 1 ==> line_step(#[trigger] extension@[j], extension@[j + 1], first, final_point),
                last_on_map ==> forall|j: int|
                    0 <= j < extension@.len() ==> (#[trigger] extension@[j]).x < MAX_POINT_SIZE && extension@[j].y < MAX_POINT_SIZE,
                first == points@[0],
                final_point == points@.last(),
                last_on_map ==> extended_by_steps(line@, points@),
                last_on_map ==> line@.last() == extension@[k - 1],
                last_on_map == line_on_map(points@),
                n == points@.len(),
            decreases extension@.len() - k,
        {
            let ghost prev = line@;
            line.push(extension[k]);
            k = k + 1;
            assert(line@ =~= before + extension@.subrange(1, k as int));
            proof {
                if last_on_map {
                    assert(extended_by_steps(prev, points@));
                    assert(line@[line@.len() - 2] == extension@[k - 2]);
                    assert forall|j: int| n <= j < line@.len() implies #[trigger] on_map_step(line@, j, points@) by {
                        if j < line@.len() - 1 {
                            assert(line@[j] == prev[j]);
                            assert(line@[j - 1] == prev[j - 1]);
                            assert(on_map_step(prev, j, points@));
                        }
                    }
                }
            }
        }
        proof {
            assert(extension@ == spec_extension(last, dx, dy));
            assert(extension@.skip(1) =~= extension@.subrange(1, extension@.len() as int));
            assert(line@.subrange(0, n as int) =~= before.subrange(0, n as int));
        }
        // Stop at the requested length, or when the map's edge adds nothing more
        if line.len() >= length as usize || extension.len() == 1 {
            let ghost next = line@;
            line.truncate(length as usize);
            proof {
                assert(next =~= before + extension@.skip(1));
                if next.len() > length {
                    assert(line@ =~= next.take(length as int));
                } else {
                    assert(line@ =~= next);
                }
                assert(before.last() == last);
                assert(spec_extend(before, dx, dy, length as nat) == line@);
                assert forall|j: int| 0 <= j < line@.len() && j < n implies #[trigger] line@[j] == points@[j] by {
                    assert(next[j] == next.subrange(0, n as int)[j]);
                }
                if last_on_map {
                    assert forall|j: int| n <= j < line@.len() implies #[trigger] on_map_step(line@, j, points@) by {
                        assert(on_map_step(next, j, points@));
                        assert(line@[j] == next[j] && line@[j - 1] == next[j - 1]);
                    }
                }
            }
            return line;
        }
        proof {
            let e = extension@;
            assert(line@.last() == e[e.len() - 1]);
            lemma_on_map_points_on_map(walk_grid(
                last.x as i32,
                last.y as i32,
                (as_i32(last.x) + dx) as i32,
                (as_i32(last.y) + dy) as i32,
            ));
        }
    }
}

/// `points` extended along itself as `extend_line_along_path` does, or `None`
/// when that cannot be computed: `points` is empty, its step does not fit an
/// `i32`, or the first extension is not computed exactly or keeps no on-map
/// point.
pub fn checked_extend_line_along_path(points: &[Point], length: u32) -> (r: Option<Vec<Point>>)
    ensures
        extend_ready(points@) ==> (r matches Some(v) && v@ == spec_extend(
            points@,
            path_delta(points@).0,
            path_delta(points@).1,
            length as nat,
        )),
        !extend_ready(points@) ==> r is None,
{
    if points.len() == 0 {
        return None;
    }
    let first = points[0];
    let last = points[points.len() - 1];
    let sx: i64 = last.x as i32 as i64;
    let sy: i64 = last.y as i32 as i64;
    let dx: i64 = sx - first.x as i32 as i64;
    let dy: i64 = sy - first.y as i32 as i64;
    if dx < i32::MIN as i64 || dx > i32::MAX as i64 || dy < i32::MIN as i64 || dy > i32::MAX as i64 {
        return None;
    }
    if !walk_ok_exec(sx, sy, sx + dx, sy + dy) {
        return None;
    }
    let walk = walk_grid_points(sx as i32, sy as i32, (sx + dx) as i32, (sy + dy) as i32);
    let extension = on_map_points_from_walk(&walk);
    if extension.len() == 0 {
        return None;
    }
    Some(extend_line_along_path(points, length))
}

impl SizedPoint {
    /// Whether the tiles of this rectangle can be listed.
    pub fn positions_fit_exec(&self) -> (r: bool)
        ensures
            r == self.positions_fit(),
    {
        let w = self.width as u64;
        let h = self.height as u64;
        proof {
            assert(w * h <= u32::MAX * u32::MAX) by (nonlinear_arith)
                requires
                    w <= u32::MAX,
                    h <= u32::MAX,
            ;
        }
        let count_fits = w * h <= u32::MAX as u64;
        let tiles_fit = if w > 0 && h > 0 {
            self.origin.x as u64 + w - 1 <= u32::MAX as u64 && h - 1 <= self.origin.y as u64
        } else {
            true
        };
        count_fits && tiles_fit
    }

    /// The number of steps from this rectangle to the nearest tile of
    /// `point`, as `distance_to_multi` measures it, or `None` when that
    /// cannot be measured (a walk is not computed exactly, or a line keeps no
    /// on-map point) or either rectangle has no tile.
    pub fn checked_distance_to_multi(&self, point: SizedPoint) -> (r: Option<u32>)
        ensures
            self.multi_distance_ready(point) ==> r == self.spec_distance_to_multi(point),
            !self.multi_distance_ready(point) ==> r is None,
    {
        if !point.positions_fit_exec() || !self.positions_fit_exec() {
            proof {
                if point.positions_fit() && point.width * point.height > 0 {
                    let q = point.spec_all_positions()[0];
                    point.lemma_listed_contained(0);
                }
            }
            return None;
        }
        let targets = point.all_positions();
        let sources = self.all_positions();
        let mut k: usize = 0;
        while k < targets.len()
            invariant
                point.positions_fit(),
                self.positions_fit(),
                targets@ == point.spec_all_positions(),
                sources@ == self.spec_all_positions(),
                k <= targets@.len(),
                forall|j: int| 0 <= j < k ==> self.distance_ready(#[trigger] targets@[j]),
            decreases targets@.len() - k,
        {
            let q = targets[k];
            proof {
                point.lemma_listed_contained(k as int);
            }
            let mut i: usize = 0;
            while i < sources.len()
                invariant
                    self.positions_fit(),
                    point.positions_fit(),
                    targets@ == point.spec_all_positions(),
                    k < targets@.len(),
                    q == targets@[k as int],
                    sources@ == self.spec_all_positions(),
                    i <= sources@.len(),
                    forall|j: int|
                        0 <= j < i ==> walk_ok(
                            as_i32((#[trigger] sources@[j]).x),
                            as_i32(sources@[j].y),
                            as_i32(q.x),
                            as_i32(q.y),
                        ),
                decreases sources@.len() - i,
            {
                let p = sources[i];
                if !walk_ok_exec(p.x as i32 as i64, p.y as i32 as i64, q.x as i32 as i64, q.y as i32 as i64) {
                    proof {
                        self.lemma_listed_contained(i as int);
                        point.lemma_listed_contained(k as int);
                        assert(point.spec_contains(q));
                        assert(!self.distance_ready(q));
                    }
                    return None;
                }
                i = i + 1;
            }
            proof {
                assert forall|p: Point| #[trigger] self.spec_contains(p) implies walk_ok(
                    as_i32(p.x),
                    as_i32(p.y),
                    as_i32(q.x),
                    as_i32(q.y),
                ) by {
                    self.lemma_contains_iff_listed(p);
                    let j = choose|j: int| 0 <= j < sources@.len() && sources@[j] == p;
                    assert(walk_ok(as_i32(sources@[j].x), as_i32(sources@[j].y), as_i32(q.x), as_i32(q.y)));
                }
            }
            if let Some(v) = self.line_to(q) {
                if v.len() == 0 {
                    proof {
                        assert(point.spec_contains(q));
                    }
                    return None;
                }
            }
            k = k + 1;
        }
        proof {
            assert forall|q: Point| #[trigger] point.spec_contains(q) implies self.distance_ready(q) by {
                point.lemma_contains_iff_listed(q);
                let j = choose|j: int| 0 <= j < targets@.len() && targets@[j] == q;
                assert(self.distance_ready(targets@[j]));
            }
        }
        self.distance_to_multi(point)
    }
}

/// The distance between points is a distance: it is symmetric, zero from a
/// point to itself, and never shortened by a detour.
pub proof fn lemma_manhattan_metric(a: Point, b: Point, c: Point)
    ensures
        a.manhattan(b) == b.manhattan(a),
        a.manhattan(a) == 0,
        a.manhattan(b) >= 0,
        a.manhattan(c) <= a.manhattan(b) + b.manhattan(c),
{
}

} // verus!
