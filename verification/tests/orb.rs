use arena::atlas::{Point, SizedPoint};
use arena::clash::ai::check_for_cone_striking_player;
use arena::clash::orb::{orb_movement_fields, orb_start_index, orb_step};

fn column(x: u32, from: u32, to: u32) -> Vec<Point> {
    (from..=to).map(|y| Point::init(x, y)).collect()
}

#[test]
fn orb_has_correct_fields() {
    // an orb cast from (2,2) towards (2,6) with speed 2
    let path = column(2, 2, 12);
    let start = orb_start_index(&path, &SizedPoint::init(2, 2));
    assert_eq!(1, start);
    let fields = orb_movement_fields(&path, start, 2);
    assert_eq!(5, fields.len());
    assert_eq!(Some(Point::init(2, 3)), fields[0].0);
    assert_eq!((255, 0, 0, 140), fields[1].1);
    assert_eq!((230, 150, 0, 140), fields[2].1);
    assert_eq!(Some(Point::init(2, 7)), fields[4].0);
}

#[test]
fn fields_stop_at_path_end() {
    let path = column(2, 2, 12);
    let fields = orb_movement_fields(&path, 8, 2);
    assert_eq!(3, fields.len());
    assert_eq!(0, orb_movement_fields(&path, 20, 2).len());
    assert_eq!(10, orb_movement_fields(&column(2, 2, 12), 1, 8).len());
}

#[test]
fn orb_from_multi_sized_starts_outside_caster() {
    let path: Vec<Point> = (0..=6).rev().map(|y| Point::init(2, y)).collect();
    let caster = SizedPoint::init_multi(2, 6, 2, 2);
    let start = orb_start_index(&path, &caster);
    assert_eq!(Point::init(2, 4), path[start]);
}

#[test]
fn orb_steps_along_path() {
    let path = column(2, 2, 8);
    assert_eq!((1, 3, false), orb_step(&path, Point::init(2, 3), 2));
    assert_eq!((5, 6, true), orb_step(&path, Point::init(2, 7), 2));
    assert_eq!((6, 6, true), orb_step(&path, Point::init(2, 8), 2));
}

#[test]
fn cone_strike_towards_player() {
    // enemy at (5,5), player two tiles south
    let target = check_for_cone_striking_player(&SizedPoint::init(5, 5), &SizedPoint::init(5, 7), 3);
    assert_eq!(Some(Point::init(5, 6)), target);
    // player to the west is never struck: west is not tried
    assert_eq!(None, check_for_cone_striking_player(&SizedPoint::init(5, 5), &SizedPoint::init(3, 5), 3));
    // player north
    assert_eq!(Some(Point::init(5, 4)), check_for_cone_striking_player(&SizedPoint::init(5, 5), &SizedPoint::init(5, 3), 2));
}
