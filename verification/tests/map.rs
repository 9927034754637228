use arena::atlas::{Point, SizedPoint};
use arena::clash::{element_at_location, GameMap, HitTestEntity, MapHitTestResult};

fn character(x: u32, y: u32, is_player: bool) -> HitTestEntity {
    HitTestEntity { position: SizedPoint::init(x, y), is_character: true, is_player, is_orb: false, field: None, has_behavior: !is_player }
}

#[test]
fn map_hittest() {
    let entities = vec![
        character(2, 2, true),
        character(3, 2, false),
        HitTestEntity {
            position: SizedPoint::init(4, 2),
            is_character: false,
            is_player: false,
            is_orb: false,
            field: Some(vec![None]),
            has_behavior: true,
        },
    ];

    assert_eq!(MapHitTestResult::NoHit, element_at_location(&entities, &Point::init(1, 2)));
    assert_eq!(MapHitTestResult::Enemy, element_at_location(&entities, &Point::init(3, 2)));
    assert_eq!(MapHitTestResult::Field, element_at_location(&entities, &Point::init(4, 2)));
}

#[test]
fn hittest_player_orb_and_placed_fields() {
    let entities = vec![
        character(2, 2, true),
        HitTestEntity { position: SizedPoint::init(5, 5), is_character: false, is_player: false, is_orb: true, field: None, has_behavior: true },
        HitTestEntity {
            position: SizedPoint::init(0, 0),
            is_character: false,
            is_player: false,
            is_orb: false,
            field: Some(vec![Some(Point::init(7, 7)), Some(Point::init(8, 8))]),
            has_behavior: true,
        },
        HitTestEntity {
            position: SizedPoint::init(0, 1),
            is_character: false,
            is_player: false,
            is_orb: false,
            field: Some(vec![Some(Point::init(9, 9))]),
            has_behavior: false,
        },
    ];
    assert_eq!(MapHitTestResult::NoHit, element_at_location(&entities, &Point::init(2, 2)));
    assert_eq!(MapHitTestResult::Orb, element_at_location(&entities, &Point::init(5, 5)));
    assert_eq!(MapHitTestResult::Field, element_at_location(&entities, &Point::init(8, 8)));
    assert_eq!(MapHitTestResult::NoHit, element_at_location(&entities, &Point::init(9, 9)));
}

#[test]
fn walkable_tiles() {
    let mut map = GameMap::init_empty();
    assert!(map.is_walkable(&Point::init(3, 4)));
    map.set_walkable(&Point::init(3, 4), false);
    assert!(!map.is_walkable(&Point::init(3, 4)));
    assert!(map.is_walkable(&Point::init(4, 3)));
}
