use vstd::prelude::*;

use crate::atlas::direction::Direction;
use crate::atlas::point::MAX_POINT_SIZE;
use crate::atlas::{Point, SizedPoint};
use crate::clash::ai::get_random_full_direction_list;
use crate::clash::map::{GameMap, MAX_MAP_TILES};
use rand::rngs::StdRng;

verus! {

/// The sized point one step from `initial` in a cardinal `direction` (its
/// origin must stay on the map); `None` for a diagonal or no direction.
pub fn point_in_direction(initial: &SizedPoint, direction: Direction) -> (r: Option<SizedPoint>)
    requires
        direction.step_fits(initial.origin),
    ensures
        direction.is_cardinal() ==> r == (match direction.spec_point_in_direction(initial.origin) {
            Some(o) => Some(SizedPoint { origin: o, width: initial.width, height: initial.height }),
            None => None,
        }),
        !direction.is_cardinal() ==> r is None,
{
    match direction {
        Direction::North | Direction::South | Direction::East | Direction::West => direction.sized_point_in_direction(initial),
        _ => None,
    }
}

/// Whether `p` is on the map and walkable there.
pub open spec fn open_tile(map: GameMap, p: Point) -> bool {
    p.x < MAX_POINT_SIZE && p.y < MAX_POINT_SIZE && map.spec_walkable(p)
}

/// Whether `area` is clear for a character: with each of `characters`
/// (a position, and whether it is the character itself) looked at in
/// turn, every tile of `area` is open and not taken by another character.
/// With no character at all, any area counts as clear.
pub open spec fn spec_area_clear(map: GameMap, characters: Seq<(SizedPoint, bool)>, area: Seq<Point>) -> bool {
    forall|c: int, k: int| 0 <= c < characters.len() && 0 <= k < area.len() ==> #[trigger] tile_clear(map, characters[c], area[k])
}

/// Whether `p` is open and, unless `character` is the one moving, not
/// taken by it.
pub open spec fn tile_clear(map: GameMap, character: (SizedPoint, bool), p: Point) -> bool {
    open_tile(map, p) && (character.1 || !character.0.spec_contains(p))
}

/// Whether `area` is clear for a character among `characters` (each with
/// whether it is the character itself).
pub fn is_area_clear(map: &GameMap, characters: &Vec<(SizedPoint, bool)>, area: &Vec<Point>) -> (r: bool)
    requires
        map.wf(),
        forall|c: int| 0 <= c < characters@.len() ==> (#[trigger] characters@[c]).0.positions_fit(),
    ensures
        r == spec_area_clear(*map, characters@, area@),
{
    let mut c: usize = 0;
    while c < characters.len()
        invariant
            c <= characters@.len(),
            map.wf(),
            forall|i: int| 0 <= i < characters@.len() ==> (#[trigger] characters@[i]).0.positions_fit(),
            forall|i: int, k: int| 0 <= i < c && 0 <= k < area@.len() ==> #[trigger] tile_clear(*map, characters@[i], area@[k]),
        decreases characters@.len() - c,
    {
        let mut k: usize = 0;
        while k < area.len()
            invariant
                c < characters@.len(),
                k <= area@.len(),
                map.wf(),
                forall|i: int| 0 <= i < characters@.len() ==> (#[trigger] characters@[i]).0.positions_fit(),
                forall|i: int, j: int| 0 <= i < c && 0 <= j < area@.len() ==> #[trigger] tile_clear(*map, characters@[i], area@[j]),
                forall|j: int| 0 <= j < k ==> #[trigger] tile_clear(*map, characters@[c as int], area@[j]),
            decreases area@.len() - k,
        {
            let p = &area[k];
            if !p.is_in_bounds() || !map.is_walkable(p) {
                assert(!tile_clear(*map, characters@[c as int], area@[k as int]));
                return false;
            }
            if !characters[c].1 && characters[c].0.contains_point(p) {
                assert(!tile_clear(*map, characters@[c as int], area@[k as int]));
                return false;
            }
            k += 1;
        }
        assert forall|i: int, j: int| 0 <= i < c + 1 && 0 <= j < area@.len() implies #[trigger] tile_clear(
            *map,
            characters@[i],
            area@[j],
        ) by {
            if i == c {
                assert(tile_clear(*map, characters@[c as int], area@[j]));
            }
        }
        c += 1;
    }
    true
}

/// An area is clear exactly when, among at least one character, every tile
/// of it is open and none lies within the rectangle of a character other
/// than the mover (any tile of that rectangle, not only its origin).
pub proof fn lemma_area_clear_iff(map: GameMap, characters: Seq<(SizedPoint, bool)>, area: Seq<Point>)
    ensures
        spec_area_clear(map, characters, area) <==> (characters.len() == 0 || (
        (forall|k: int|
            0 <= k < area.len() ==> #[trigger] area[k].x < MAX_POINT_SIZE && area[k].y < MAX_POINT_SIZE && map.spec_walkable(area[k]))
            && (forall|c: int, k: int|
            0 <= c < characters.len() && 0 <= k < area.len() && !characters[c].1 ==> !(
            #[trigger] characters[c].0.origin.x <= #[trigger] area[k].x < characters[c].0.origin.x + characters[c].0.width
                && characters[c].0.origin.y - characters[c].0.height < area[k].y <= characters[c].0.origin.y)))),
{
    if spec_area_clear(map, characters, area) && characters.len() > 0 {
        assert forall|k: int| 0 <= k < area.len() implies #[trigger] area[k].x < MAX_POINT_SIZE && area[k].y < MAX_POINT_SIZE
            && map.spec_walkable(area[k]) by {
            assert(tile_clear(map, characters[0], area[k]));
        }
        assert forall|c: int, k: int|
            0 <= c < characters.len() && 0 <= k < area.len() && !characters[c].1 implies !(
            #[trigger] characters[c].0.origin.x <= #[trigger] area[k].x < characters[c].0.origin.x + characters[c].0.width
                && characters[c].0.origin.y - characters[c].0.height < area[k].y <= characters[c].0.origin.y) by {
            assert(tile_clear(map, characters[c], area[k]));
        }
    }
}

/// Whether a character can move to `new` among `characters` (each with
/// whether it is the mover), when `has_exhaustion` says it has the
/// exhaustion left for a step: the whole of `new` must lie on the map and be
/// clear of others.
pub open spec fn spec_can_move_character(
    map: GameMap,
    characters: Seq<(SizedPoint, bool)>,
    new: SizedPoint,
    has_exhaustion: bool,
) -> bool {
    &&& new.origin.x + (new.width - 1) < MAX_MAP_TILES
    &&& new.origin.y - (new.height - 1) >= 0
    &&& spec_area_clear(map, characters, new.spec_all_positions())
    &&& has_exhaustion
}

/// A character moves only with a step's exhaustion left, only onto a
/// rectangle that lies on the map, and, when others are around, only onto
/// tiles that are walkable and that no other character's rectangle covers.
pub proof fn lemma_move_needs_room(map: GameMap, characters: Seq<(SizedPoint, bool)>, new: SizedPoint, has_exhaustion: bool, p: Point)
    requires
        spec_can_move_character(map, characters, new, has_exhaustion),
        new.positions_fit(),
        new.spec_contains(p),
    ensures
        has_exhaustion,
        new.origin.x + new.width <= MAX_MAP_TILES,
        new.origin.y + 1 >= new.height,
        characters.len() > 0 ==> p.x < MAX_POINT_SIZE && p.y < MAX_POINT_SIZE && map.spec_walkable(p),
        forall|c: int|
            0 <= c < characters.len() && !characters[c].1 ==> !(#[trigger] characters[c].0.origin.x <= p.x < characters[c].0.origin.x
                + characters[c].0.width && characters[c].0.origin.y - characters[c].0.height < p.y <= characters[c].0.origin.y),
{
    new.lemma_contains_iff_listed(p);
    let area = new.spec_all_positions();
    let k = choose|k: int| 0 <= k < area.len() && area[k] == p;
    lemma_area_clear_iff(map, characters, area);
    if characters.len() > 0 {
        assert(area[k].x < MAX_POINT_SIZE && area[k].y < MAX_POINT_SIZE && map.spec_walkable(area[k]));
    }
    assert forall|c: int|
        0 <= c < characters.len() && !characters[c].1 implies !(#[trigger] characters[c].0.origin.x <= p.x < characters[c].0.origin.x
            + characters[c].0.width && characters[c].0.origin.y - characters[c].0.height < p.y <= characters[c].0.origin.y) by {
        assert(tile_clear(map, characters[c], area[k]));
    }
}

/// Whether a character can move to `new` among `characters` (each with
/// whether it is the mover).
pub fn can_move_character(map: &GameMap, characters: &Vec<(SizedPoint, bool)>, new: SizedPoint, has_exhaustion: bool) -> (r: bool)
    requires
        map.wf(),
        forall|c: int| 0 <= c < characters@.len() ==> (#[trigger] characters@[c]).0.positions_fit(),
        new.width * new.height <= u32::MAX,
        new.origin.x + new.width - 1 <= u32::MAX,
        new.width >= 1,
        new.height >= 1,
        new.height <= i32::MAX,
        new.origin.y <= i32::MAX,
    ensures
        r == spec_can_move_character(*map, characters@, new, has_exhaustion),
{
    let top_x = new.origin.x + (new.width - 1);
    let top_y = new.origin.y as i32 - (new.height as i32 - 1);
    if top_x >= MAX_MAP_TILES || top_y < 0 {
        return false;
    }
    is_area_clear(map, characters, &new.all_positions()) && has_exhaustion
}

/// `p` one step in `d`, staying put where the step would leave the map.
pub open spec fn stepped(p: SizedPoint, d: Direction) -> SizedPoint {
    match d.spec_point_in_direction(p.origin) {
        Some(o) => SizedPoint { origin: o, ..p },
        None => p,
    }
}

/// `p` moved `steps` steps in `d`.
pub open spec fn moved(p: SizedPoint, d: Direction, steps: nat) -> SizedPoint
    decreases steps,
{
    if steps == 0 {
        p
    } else {
        stepped(moved(p, d, (steps - 1) as nat), d)
    }
}

/// The eight directions a landing is looked for in.
pub open spec fn landing_directions() -> Seq<Direction> {
    seq![
        Direction::North,
        Direction::NorthWest,
        Direction::West,
        Direction::SouthWest,
        Direction::South,
        Direction::SouthEast,
        Direction::East,
        Direction::NorthEast,
    ]
}

/// Whether a character at `p` would stand clear among `characters`.
pub open spec fn lands_clear(map: GameMap, characters: Seq<(SizedPoint, bool)>, p: SizedPoint) -> bool {
    spec_area_clear(map, characters, p.spec_all_positions())
}

/// Whether some spot within two steps of `initial` in one of the eight
/// directions is clear.
pub open spec fn landing_exists(map: GameMap, characters: Seq<(SizedPoint, bool)>, initial: SizedPoint) -> bool {
    lands_clear(map, characters, initial) || exists|d: Direction, k: nat|
        #![trigger lands_clear(map, characters, moved(initial, d, k))]
        landing_directions().contains(d) && 1 <= k <= 2 && lands_clear(map, characters, moved(initial, d, k))
}

/// A point moved any number of steps is where it started or on the map.
proof fn lemma_moved_stays(p: SizedPoint, d: Direction, steps: nat)
    ensures
        moved(p, d, steps).origin == p.origin || (moved(p, d, steps).origin.x < MAX_POINT_SIZE && moved(p, d, steps).origin.y
            < MAX_POINT_SIZE),
        moved(p, d, steps).width == p.width,
        moved(p, d, steps).height == p.height,
    decreases steps,
{
    if steps > 0 {
        lemma_moved_stays(p, d, (steps - 1) as nat);
    }
}

/// Where a character knocked or landing at `initial` comes to stand: there
/// when clear, else the first clear spot found one step away in the eight
/// directions tried in an order drawn from `rng`, else two steps away.
pub fn find_clear_landing(map: &GameMap, characters: &Vec<(SizedPoint, bool)>, initial: &SizedPoint, rng: &mut StdRng) -> (r: SizedPoint)
    requires
        map.wf(),
        forall|c: int| 0 <= c < characters@.len() ==> (#[trigger] characters@[c]).0.positions_fit(),
        initial.positions_fit(),
        forall|d: Direction| #[trigger] d.step_fits(initial.origin),
        forall|d: Direction, k: nat| 1 <= k <= 2 ==> (#[trigger] moved(*initial, d, k)).positions_fit(),
        landing_exists(*map, characters@, *initial),
    ensures
        lands_clear(*map, characters@, r),
        lands_clear(*map, characters@, *initial) ==> r == *initial,
        !lands_clear(*map, characters@, *initial) ==> exists|d: Direction, k: nat|
            landing_directions().contains(d) && 1 <= k <= 2 && r == moved(*initial, d, k) && (k == 2 ==> forall|e: Direction|
                landing_directions().contains(e) ==> !lands_clear(*map, characters@, #[trigger] moved(*initial, e, 1))),
{
    if is_area_clear(map, characters, &initial.all_positions()) {
        return *initial;
    }
    let mut distance: u32 = 1;
    while distance < 3
        invariant
            1 <= distance <= 3,
            map.wf(),
            forall|c: int| 0 <= c < characters@.len() ==> (#[trigger] characters@[c]).0.positions_fit(),
            forall|d: Direction| #[trigger] d.step_fits(initial.origin),
            forall|d: Direction, k: nat| 1 <= k <= 2 ==> (#[trigger] moved(*initial, d, k)).positions_fit(),
            !lands_clear(*map, characters@, *initial),
            forall|e: Direction, k: nat|
                landing_directions().contains(e) && 1 <= k < distance ==> !lands_clear(*map, characters@, #[trigger] moved(*initial, e, k)),
        decreases 3 - distance,
    {
        let directions = get_random_full_direction_list(rng);
        let mut i: usize = 0;
        while i < directions.len()
            invariant
                1 <= distance < 3,
                i <= directions@.len(),
                directions@.to_multiset() == landing_directions().to_multiset(),
                map.wf(),
                forall|c: int| 0 <= c < characters@.len() ==> (#[trigger] characters@[c]).0.positions_fit(),
                forall|d: Direction| #[trigger] d.step_fits(initial.origin),
                forall|d: Direction, k: nat| 1 <= k <= 2 ==> (#[trigger] moved(*initial, d, k)).positions_fit(),
                !lands_clear(*map, characters@, *initial),
                forall|e: Direction, k: nat|
                    landing_directions().contains(e) && 1 <= k < distance ==> !lands_clear(*map, characters@, #[trigger] moved(*initial, e, k)),
                forall|j: int| 0 <= j < i ==> !lands_clear(*map, characters@, #[trigger] moved(*initial, directions@[j], distance as nat)),
            decreases directions@.len() - i,
        {
            let direction = directions[i];
            let mut attempt = *initial;
            let mut step: u32 = 0;
            while step < distance
                invariant
                    step <= distance,
                    forall|d: Direction| #[trigger] d.step_fits(initial.origin),
                    attempt == moved(*initial, direction, step as nat),
                decreases distance - step,
            {
                proof {
                    lemma_moved_stays(*initial, direction, step as nat);
                }
                if let Some(p) = direction.sized_point_in_direction(&attempt) {
                    attempt = p;
                }
                step += 1;
            }
            if is_area_clear(map, characters, &attempt.all_positions()) {
                proof {
                    assert(directions@[i as int] == direction);
                    directions@.to_multiset_ensures();
                    landing_directions().to_multiset_ensures();
                    assert(directions@.contains(direction));
                    assert(directions@.to_multiset().count(direction) > 0);
                    assert(landing_directions().contains(direction));
                }
                return attempt;
            }
            i += 1;
        }
        proof {
            assert forall|e: Direction, k: nat|
                landing_directions().contains(e) && 1 <= k < distance + 1 implies !lands_clear(
                *map,
                characters@,
                #[trigger] moved(*initial, e, k),
            ) by {
                if k == distance {
                    directions@.to_multiset_ensures();
                    landing_directions().to_multiset_ensures();
                    assert(landing_directions().to_multiset().count(e) > 0);
                    assert(directions@.contains(e));
                    let j = choose|j: int| 0 <= j < directions@.len() && directions@[j] == e;
                    assert(!lands_clear(*map, characters@, moved(*initial, directions@[j], distance as nat)));
                }
            }
        }
        distance += 1;
    }
    assert(false);
    *initial
}

} // verus!
