use arena::atlas::direction::constrained_point;
use arena::atlas::point::{checked_extend_line_along_path, extend_line_along_path};
use arena::atlas::{Direction, Point, SizedPoint};

fn assert_points_equal(a: Point, b: Point) {
    assert_eq!(a.x, b.x);
    assert_eq!(a.y, b.y);
}

fn assert_points_not_equal(a: Point, b: Point) {
    assert!(a.x != b.x || a.y != b.y);
}

#[test]
fn off_map() {
    assert!(Direction::North.point_in_direction(&Point::init(0, 0)).is_none());
    assert!(Direction::North.sized_point_in_direction(&SizedPoint::init(0, 0)).is_none());
}

#[test]
fn constrained() {
    assert!(constrained_point(0, 0).is_some());
    assert!(constrained_point(12, 12).is_some());
    assert!(constrained_point(13, 12).is_none());
    assert!(constrained_point(-1, 0).is_none());
}

#[test]
fn from_two_points() {
    assert_eq!(Direction::North, Direction::from_two_points(&Point::init(2, 2), &Point::init(2, 1)));
}

#[test]
fn all_positions() {
    //  (2,0) (3,0)
    //  (2,1) (3,1)
    //  (2,2) (3,2)
    let point = SizedPoint::init_multi(2, 2, 2, 3);
    let all = point.all_positions();
    assert_eq!(6, all.len());
    assert_eq!(all[0], Point::init(2, 2));
    assert_eq!(all[1], Point::init(3, 2));
    assert_eq!(all[2], Point::init(2, 1));
    assert_eq!(all[3], Point::init(3, 1));
    assert_eq!(all[4], Point::init(2, 0));
    assert_eq!(all[5], Point::init(3, 0));
}

#[test]
fn contains_point() {
    let point = SizedPoint::init_multi(2, 2, 2, 3);
    assert_eq!(true, point.contains_point(&Point::init(2, 2)));
    assert_eq!(true, point.contains_point(&Point::init(3, 2)));
    assert_eq!(true, point.contains_point(&Point::init(2, 1)));
    assert_eq!(true, point.contains_point(&Point::init(3, 1)));
    assert_eq!(true, point.contains_point(&Point::init(2, 0)));
    assert_eq!(true, point.contains_point(&Point::init(3, 0)));
    assert_eq!(false, point.contains_point(&Point::init(4, 4)));
    assert_eq!(false, point.contains_point(&Point::init(0, 0)));
    assert_eq!(false, point.contains_point(&Point::init(2, 5)));
}

#[test]
fn move_by() {
    let mut point = SizedPoint::init_multi(2, 2, 2, 3);
    point = point.move_to(Point::init(3, 3));

    let all = point.all_positions();
    assert_eq!(6, all.len());
    assert_eq!(all[0], Point::init(3, 3));
    assert_eq!(all[1], Point::init(4, 3));
    assert_eq!(all[2], Point::init(3, 2));
    assert_eq!(all[3], Point::init(4, 2));
    assert_eq!(all[4], Point::init(3, 1));
    assert_eq!(all[5], Point::init(4, 1));
}

#[test]
fn line_to_single() {
    let point = SizedPoint::init(2, 2);
    let line = point.line_to(Point::init(4, 5)).unwrap();
    assert_eq!(6, line.len());
    assert_eq!(line[0], Point::init(2, 2));
    assert_eq!(line[1], Point::init(2, 3));
    assert_eq!(line[2], Point::init(3, 3));
    assert_eq!(line[3], Point::init(3, 4));
    assert_eq!(line[4], Point::init(4, 4));
    assert_eq!(line[5], Point::init(4, 5));
}

#[test]
fn line_to_multi() {
    let point = SizedPoint::init_multi(1, 2, 2, 1);
    let line = point.line_to(Point::init(4, 5)).unwrap();
    assert_eq!(6, line.len());
    assert_eq!(line[0], Point::init(2, 2));
    assert_eq!(line[1], Point::init(2, 3));
    assert_eq!(line[2], Point::init(3, 3));
    assert_eq!(line[3], Point::init(3, 4));
    assert_eq!(line[4], Point::init(4, 4));
    assert_eq!(line[5], Point::init(4, 5));
}

#[test]
fn extend_line() {
    let point = SizedPoint::init(2, 2);
    let line = extend_line_along_path(&point.line_to(Point::init(4, 5)).unwrap(), 12);
    assert_eq!(12, line.len());
    assert_eq!(line[0], Point::init(2, 2));
    assert_eq!(line[1], Point::init(2, 3));
    assert_eq!(line[2], Point::init(3, 3));
    assert_eq!(line[3], Point::init(3, 4));
    assert_eq!(line[4], Point::init(4, 4));
    assert_eq!(line[5], Point::init(4, 5));
    assert_eq!(line[6], Point::init(4, 6));
    assert_eq!(line[7], Point::init(5, 6));
    assert_eq!(line[8], Point::init(5, 7));
    assert_eq!(line[9], Point::init(6, 7));
    assert_eq!(line[10], Point::init(6, 8));
    assert_eq!(line[11], Point::init(6, 9));
}

#[test]
fn extend_line_past_map_edge_south() {
    let point = SizedPoint::init(8, 8);
    let line = extend_line_along_path(&point.line_to(Point::init(11, 12)).unwrap(), 12);
    assert_eq!(8, line.len());
    assert_eq!(line[0], Point::init(8, 8));
    assert_eq!(line[1], Point::init(8, 9));
    assert_eq!(line[2], Point::init(9, 9));
    assert_eq!(line[3], Point::init(9, 10));
    assert_eq!(line[4], Point::init(10, 10));
    assert_eq!(line[5], Point::init(10, 11));
    assert_eq!(line[6], Point::init(11, 11));
    assert_eq!(line[7], Point::init(11, 12));
}

#[test]
fn extend_line_past_map_edge_north() {
    let point = SizedPoint::init(3, 3);
    let line = extend_line_along_path(&point.line_to(Point::init(1, 1)).unwrap(), 12);
    assert_eq!(7, line.len());
    assert_eq!(line[0], Point::init(3, 3));
    assert_eq!(line[1], Point::init(3, 2));
    assert_eq!(line[2], Point::init(2, 2));
    assert_eq!(line[3], Point::init(2, 1));
    assert_eq!(line[4], Point::init(1, 1));
    assert_eq!(line[5], Point::init(1, 0));
    assert_eq!(line[6], Point::init(0, 0));
}

#[test]
fn distance_to_single() {
    let point = SizedPoint::init(2, 2);
    let (initial, distance) = point.distance_with_initial(Point::init(4, 5)).unwrap();
    assert_eq!(5, distance);
    assert_points_equal(initial, Point::init(2, 2));
    let distance = point.distance_to(Point::init(4, 5)).unwrap();
    assert_eq!(5, distance);
}

#[test]
fn distance_to_multi() {
    let point = SizedPoint::init_multi(1, 2, 2, 1);
    let (initial, distance) = point.distance_with_initial(Point::init(4, 5)).unwrap();
    assert_eq!(5, distance);
    assert_points_equal(initial, Point::init(2, 2));
    let distance = point.distance_to(Point::init(4, 5)).unwrap();
    assert_eq!(5, distance);
}

#[test]
fn multi_distance_to_multi() {
    let point = SizedPoint::init_multi(1, 2, 2, 2);
    let (initial, end, distance) = point.distance_to_multi_with_endpoints(SizedPoint::init_multi(4, 6, 2, 2)).unwrap();
    assert_eq!(5, distance);
    assert_points_equal(Point::init(2, 2), initial);
    assert_points_equal(Point::init(4, 5), end);
    let distance = point.distance_to_multi(SizedPoint::init_multi(4, 6, 2, 2)).unwrap();
    assert_eq!(5, distance);
}

#[test]
fn burst() {
    let point = Point::init(3, 3);
    assert_eq!(1, point.get_burst(0).len());
    assert_eq!(5, point.get_burst(1).len());
    assert_eq!(13, point.get_burst(2).len());
}

#[test]
fn burst_corner() {
    let point = Point::init(0, 0);
    assert_eq!(3, point.get_burst(1).len());
}

#[test]
fn distance_to_point() {
    assert_eq!(9, Point::init(5, 4).distance_to(Point::init(0, 0)).unwrap());
}

#[test]
fn line_to_point() {
    let path = Point::init(5, 4).line_to(Point::init(0, 0)).unwrap();
    assert_points_equal(path[0], Point::init(5, 4));
    assert_points_equal(path[4], Point::init(3, 2));
    assert_points_equal(path[9], Point::init(0, 0));
}

#[test]
fn cone() {
    let point = Point::init(3, 3);
    let points = point.get_cone(Direction::North, 2);
    assert_eq!(8, points.len());
    assert!(points.contains(&Point::init(3, 2)));
    assert!(points.contains(&Point::init(2, 2)));
    assert!(points.contains(&Point::init(4, 2)));
    assert!(points.contains(&Point::init(3, 1)));
    assert!(points.contains(&Point::init(2, 1)));
    assert!(points.contains(&Point::init(4, 1)));
    assert!(points.contains(&Point::init(1, 1)));
    assert!(points.contains(&Point::init(5, 1)));
}

#[test]
fn cone_corner() {
    let point = Point::init(1, 4);
    let points = point.get_cone(Direction::West, 3);
    assert_eq!(3, points.len());
    assert!(points.contains(&Point::init(0, 4)));
    assert!(points.contains(&Point::init(0, 3)));
    assert!(points.contains(&Point::init(0, 5)));
}

#[test]
fn burst_is_sorted_and_exact() {
    let burst = Point::init(1, 1).get_burst(1);
    assert_eq!(
        burst,
        vec![Point::init(0, 1), Point::init(1, 0), Point::init(1, 1), Point::init(1, 2), Point::init(2, 1)]
    );
    assert_eq!(0, Point::init(1, 1).get_burst(0x8000_0001).len());
}

#[test]
fn cone_order() {
    let points = Point::init(3, 3).get_cone(Direction::North, 1);
    assert_eq!(points, vec![Point::init(3, 2), Point::init(2, 2), Point::init(4, 2)]);
}

#[test]
fn directions_and_opposites() {
    assert_eq!(Direction::South, Direction::North.opposite());
    assert_eq!(Direction::NoDirection, Direction::NoDirection.opposite());
    assert_eq!(Direction::NorthWest, Direction::SouthEast.opposite());
    assert_eq!(Direction::SouthEast, Direction::from_two_points(&Point::init(0, 0), &Point::init(5, 9)));
    assert_eq!(Direction::NoDirection, Direction::from_two_points(&Point::init(4, 4), &Point::init(4, 4)));
    // Stepping there and back returns to the start
    let p = Point::init(6, 6);
    let q = Direction::NorthEast.point_in_direction(&p).unwrap();
    assert_eq!(Point::init(7, 5), q);
    assert_eq!(Some(p), Direction::NorthEast.opposite().point_in_direction(&q));
    assert_eq!(Some(Point::init(40, 40)), Direction::NoDirection.point_in_direction(&Point::init(40, 40)));
}

#[test]
fn sized_point_moves_keeping_size() {
    let moved = Direction::East.sized_point_in_direction(&SizedPoint::init_multi(3, 4, 2, 2)).unwrap();
    assert_eq!(SizedPoint::init_multi(4, 4, 2, 2), moved);
    assert!(Direction::East.sized_point_in_direction(&SizedPoint::init(12, 4)).is_none());
}

#[test]
fn bounds_and_single_position() {
    assert!(Point::init(12, 12).is_in_bounds());
    assert!(!Point::init(13, 0).is_in_bounds());
    assert_eq!(Point::init(5, 6), SizedPoint::from(Point::init(5, 6)).single_position());
    assert_points_not_equal(Point::init(1, 2), Point::init(2, 1));
}

#[test]
fn line_keeps_only_map_points() {
    // From off the map the line keeps only the part on the map
    let line = SizedPoint::init(15, 2).line_to(Point::init(10, 2)).unwrap();
    assert_eq!(line, vec![Point::init(12, 2), Point::init(11, 2), Point::init(10, 2)]);
    assert_eq!(Some((Point::init(12, 2), 2)), SizedPoint::init(15, 2).distance_with_initial(Point::init(10, 2)));
    assert!(SizedPoint::init_multi(2, 2, 0, 3).line_to(Point::init(1, 1)).is_none());
}

#[test]
fn checked_distance_and_extension() {
    let point = SizedPoint::init_multi(1, 2, 2, 2);
    assert_eq!(Some(5), point.checked_distance_to_multi(SizedPoint::init_multi(4, 6, 2, 2)));
    // Both ends off the map: no line keeps a point
    assert_eq!(None, SizedPoint::init(20, 20).checked_distance_to_multi(SizedPoint::init(30, 30)));
    assert_eq!(None, checked_extend_line_along_path(&[], 4));
    let extended = checked_extend_line_along_path(&[Point::init(0, 0), Point::init(1, 0)], 4).unwrap();
    assert_eq!(extended, vec![Point::init(0, 0), Point::init(1, 0), Point::init(2, 0), Point::init(3, 0)]);
}

#[test]
fn line_runs_from_start_to_end_in_unit_steps() {
    let from = Point::init(5, 4);
    let to = Point::init(0, 0);
    let line = from.line_to(to).unwrap();
    assert_eq!(10, line.len());
    assert_eq!(from, line[0]);
    assert_eq!(to, line[9]);
    for k in 1..line.len() {
        let dx = (line[k].x as i32 - line[k - 1].x as i32).abs();
        let dy = (line[k].y as i32 - line[k - 1].y as i32).abs();
        assert_eq!(1, dx + dy);
        assert!(line[k].x <= line[k - 1].x && line[k].y <= line[k - 1].y);
    }
}

#[test]
fn distance_is_fewest_steps_from_any_tile() {
    let rect = SizedPoint::init_multi(1, 2, 2, 1);
    let target = Point::init(4, 5);
    let best = rect
        .all_positions()
        .iter()
        .map(|c| (target.x as i32 - c.x as i32).abs() + (target.y as i32 - c.y as i32).abs())
        .min()
        .unwrap() as u32;
    assert_eq!(Some(best), rect.distance_to(target));
    assert_eq!(Some((Point::init(2, 2), best)), rect.distance_with_initial(target));
}

#[test]
fn extended_points_step_on_the_map() {
    let points = Point::init(2, 2).line_to(Point::init(4, 5)).unwrap();
    let line = extend_line_along_path(&points, 20);
    assert!(line.len() <= 20);
    assert_eq!(&points[..], &line[..points.len()]);
    for k in points.len()..line.len() {
        assert!(line[k].x < 13 && line[k].y < 13);
        let dx = line[k].x as i32 - line[k - 1].x as i32;
        let dy = line[k].y as i32 - line[k - 1].y as i32;
        assert!((dx == 1 && dy == 0) || (dx == 0 && dy == 1));
    }
}
