use arena::atlas::{Direction, SizedPoint};
use arena::clash::physics::point_in_direction;
use arena::clash::MAX_MAP_TILES;

#[test]
fn point_off_map() {
    assert_eq!(None, point_in_direction(&SizedPoint::init(5, 0), Direction::North));
    assert_eq!(None, point_in_direction(&SizedPoint::init(5, MAX_MAP_TILES - 1), Direction::South));
    assert_eq!(None, point_in_direction(&SizedPoint::init(0, 5), Direction::West));
    assert_eq!(None, point_in_direction(&SizedPoint::init(MAX_MAP_TILES - 1, 5), Direction::East));
}

#[test]
fn cardinal_steps_only() {
    assert_eq!(Some(SizedPoint::init(5, 4)), point_in_direction(&SizedPoint::init(5, 5), Direction::North));
    assert_eq!(Some(SizedPoint::init(6, 5)), point_in_direction(&SizedPoint::init(5, 5), Direction::East));
    assert_eq!(None, point_in_direction(&SizedPoint::init(5, 5), Direction::NorthEast));
    assert_eq!(None, point_in_direction(&SizedPoint::init(5, 5), Direction::NoDirection));
}

use arena::atlas::Point;
use arena::clash::physics::{can_move_character, find_clear_landing, is_area_clear};
use arena::clash::GameMap;
use rand::SeedableRng;

#[test]
fn area_clear_of_others() {
    let mut map = GameMap::init_empty();
    map.set_walkable(&Point::init(4, 4), false);
    let characters = vec![(SizedPoint::init(2, 2), true), (SizedPoint::init(3, 3), false)];
    assert!(is_area_clear(&map, &characters, &vec![Point::init(2, 2)]));
    assert!(!is_area_clear(&map, &characters, &vec![Point::init(1, 1), Point::init(3, 3)]));
    assert!(!is_area_clear(&map, &characters, &vec![Point::init(4, 4)]));
    assert!(!is_area_clear(&map, &characters, &vec![Point::init(13, 1)]));
    assert!(is_area_clear(&map, &vec![], &vec![Point::init(40, 40)]));
}

#[test]
fn moving_needs_room_and_exhaustion() {
    let map = GameMap::init_empty();
    let characters = vec![(SizedPoint::init(2, 2), true), (SizedPoint::init(3, 3), false)];
    assert!(can_move_character(&map, &characters, SizedPoint::init(2, 3), true));
    assert!(!can_move_character(&map, &characters, SizedPoint::init(2, 3), false));
    assert!(!can_move_character(&map, &characters, SizedPoint::init(3, 3), true));
    assert!(!can_move_character(&map, &characters, SizedPoint::init_multi(12, 5, 2, 2), true));
    assert!(!can_move_character(&map, &characters, SizedPoint::init_multi(5, 0, 2, 2), true));
    assert!(can_move_character(&map, &characters, SizedPoint::init_multi(5, 1, 2, 2), true));
}

#[test]
fn landing_moves_to_nearest_clear_spot() {
    let map = GameMap::init_empty();
    let mut rng = rand::rngs::StdRng::seed_from_u64(7);
    let characters = vec![(SizedPoint::init(5, 5), false)];
    assert_eq!(SizedPoint::init(6, 6), find_clear_landing(&map, &characters, &SizedPoint::init(6, 6), &mut rng));
    let landed = find_clear_landing(&map, &characters, &SizedPoint::init(5, 5), &mut rng);
    assert_ne!(SizedPoint::init(5, 5), landed);
    let dx = (landed.origin.x as i32 - 5).abs();
    let dy = (landed.origin.y as i32 - 5).abs();
    assert!(dx <= 1 && dy <= 1);
}

fn mover_at(x: u32, y: u32) -> Vec<(SizedPoint, bool)> {
    vec![(SizedPoint::init(x, y), true)]
}

#[test]
fn walk_into_clear() {
    let map = GameMap::init_empty();
    assert!(can_move_character(&map, &mover_at(2, 2), SizedPoint::init(2, 3), true));
}

#[test]
fn walk_into_non_characters() {
    // A field at (2, 3) is no character and does not block.
    let map = GameMap::init_empty();
    assert!(can_move_character(&map, &mover_at(2, 2), SizedPoint::init(2, 3), true));
}

#[test]
fn unable_to_walk_into_unwalkable() {
    let mut map = GameMap::init_empty();
    map.set_walkable(&Point::init(2, 3), false);
    assert!(!can_move_character(&map, &mover_at(2, 2), SizedPoint::init(2, 3), true));
}

#[test]
fn unable_to_walk_into_another() {
    let map = GameMap::init_empty();
    let characters = vec![(SizedPoint::init(2, 2), true), (SizedPoint::init(2, 3), false)];
    assert!(!can_move_character(&map, &characters, SizedPoint::init(2, 3), true));
}

#[test]
fn walk_off_map() {
    let map = GameMap::init_empty();
    assert!(!can_move_character(&map, &mover_at(13, 13), SizedPoint::init(13, 14), true));
}

#[test]
fn multi_walks_into_single() {
    let map = GameMap::init_empty();
    let characters = vec![(SizedPoint::init(2, 2), false), (SizedPoint::init_multi(2, 4, 2, 2), true)];
    assert!(!can_move_character(&map, &characters, SizedPoint::init_multi(2, 3, 2, 2), true));
}

#[test]
fn entity_with_max_resources_can_not_move() {
    let map = GameMap::init_empty();
    assert!(!can_move_character(&map, &mover_at(2, 2), SizedPoint::init(2, 3), false));
}

#[test]
fn can_move_boundary_crash() {
    let map = GameMap::init_empty();
    let characters = vec![(SizedPoint::init_multi(8, 1, 2, 2), true)];
    assert!(!can_move_character(&map, &characters, SizedPoint::init_multi(8, 0, 2, 2), true));
}
