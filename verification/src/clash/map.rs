use vstd::prelude::*;

use crate::atlas::point::{Point, SizedPoint, MAX_POINT_SIZE};

verus! {

/// The map is `MAX_MAP_TILES` tiles on each side.
pub const MAX_MAP_TILES: u32 = MAX_POINT_SIZE;
/// `MAX_MAP_TILES` as a `usize`.
pub const MAX_MAP_TILES_SIZED: usize = 13;

/// One map tile.
#[derive(Copy, Clone, Debug)]
pub struct MapTile {
    pub walkable: bool,
}

/// The battle map: which tiles can be walked on.
#[derive(Clone)]
pub struct GameMap {
    tiles: Vec<MapTile>,
}

/// The position of tile `(x, y)` in the tile list (column by column).
pub open spec fn tile_index(x: int, y: int) -> int {
    x * MAX_MAP_TILES_SIZED + y
}

impl View for GameMap {
    /// Whether each tile is walkable, column by column.
    type V = Seq<bool>;

    closed spec fn view(&self) -> Seq<bool> {
        self.tiles@.map_values(|t: MapTile| t.walkable)
    }
}

impl GameMap {
    /// Whether the map holds exactly one entry per tile.
    pub closed spec fn wf(&self) -> bool {
        self.tiles@.len() == MAX_MAP_TILES_SIZED * MAX_MAP_TILES_SIZED
    }

    /// Whether the tile at `p` is walkable.
    pub open spec fn spec_walkable(&self, p: Point) -> bool {
        self@[tile_index(p.x as int, p.y as int)]
    }

    /// A map whose tiles are given column by column: `tiles[x][y]` is the
    /// tile at `(x, y)`.
    pub fn from_columns(tiles: &[[MapTile; 13]; 13]) -> (r: GameMap)
        ensures
            r.wf(),
            forall|x: int, y: int|
                0 <= x < 13 && 0 <= y < 13 ==> #[trigger] r@[tile_index(x, y)] == tiles@[x]@[y].walkable,
    {
        let mut flat: Vec<MapTile> = Vec::new();
        let mut x: usize = 0;
        while x < 13
            invariant
                x <= 13,
                flat@.len() == x * 13,
                forall|a: int, b: int|
                    0 <= a < x && 0 <= b < 13 ==> #[trigger] flat@[tile_index(a, b)] == tiles@[a]@[b],
            decreases 13 - x,
        {
            let column = tiles[x];
            let mut y: usize = 0;
            while y < 13
                invariant
                    x < 13,
                    y <= 13,
                    column@ == tiles@[x as int]@,
                    flat@.len() == x * 13 + y,
                    forall|a: int, b: int|
                        0 <= a < x && 0 <= b < 13 ==> #[trigger] flat@[tile_index(a, b)] == tiles@[a]@[b],
                    forall|b: int| 0 <= b < y ==> #[trigger] flat@[tile_index(x as int, b)] == tiles@[x as int]@[b],
                decreases 13 - y,
            {
                flat.push(column[y]);
                y = y + 1;
            }
            x = x + 1;
        }
        GameMap { tiles: flat }
    }

    /// The tiles column by column: `r[x][y]` is the tile at `(x, y)`.
    pub fn to_columns(&self) -> (r: [[MapTile; 13]; 13])
        requires
            self.wf(),
        ensures
            forall|x: int, y: int|
                0 <= x < 13 && 0 <= y < 13 ==> #[trigger] r@[x]@[y].walkable == self@[tile_index(x, y)],
    {
        let mut columns = [[MapTile { walkable: true }; 13]; 13];
        let mut x: usize = 0;
        while x < 13
            invariant
                self.wf(),
                x <= 13,
                forall|a: int, b: int|
                    0 <= a < x && 0 <= b < 13 ==> #[trigger] columns@[a]@[b].walkable == self@[tile_index(a, b)],
            decreases 13 - x,
        {
            let mut column = [MapTile { walkable: true }; 13];
            let mut y: usize = 0;
            while y < 13
                invariant
                    self.wf(),
                    x < 13,
                    y <= 13,
                    forall|b: int| 0 <= b < y ==> #[trigger] column@[b].walkable == self@[tile_index(x as int, b)],
                decreases 13 - y,
            {
                column.set(y, self.tiles[x * 13 + y]);
                y = y + 1;
            }
            columns.set(x, column);
            x = x + 1;
        }
        columns
    }

    /// A map whose every tile is walkable.
    pub fn init_empty() -> (r: GameMap)
        ensures
            r.wf(),
            forall|k: int| 0 <= k < r@.len() ==> #[trigger] r@[k],
    {
        let mut tiles: Vec<MapTile> = Vec::new();
        let mut k: usize = 0;
        while k < MAX_MAP_TILES_SIZED * MAX_MAP_TILES_SIZED
            invariant
                k <= MAX_MAP_TILES_SIZED * MAX_MAP_TILES_SIZED,
                tiles@.len() == k,
                forall|j: int| 0 <= j < k ==> (#[trigger] tiles@[j]).walkable,
            decreases MAX_MAP_TILES_SIZED * MAX_MAP_TILES_SIZED - k,
        {
            tiles.push(MapTile { walkable: true });
            k = k + 1;
        }
        GameMap { tiles }
    }

    /// Whether the tile at `position` (on the map) is walkable.
    pub fn is_walkable(&self, position: &Point) -> (r: bool)
        requires
            self.wf(),
            position.x < MAX_MAP_TILES,
            position.y < MAX_MAP_TILES,
        ensures
            r == self.spec_walkable(*position),
    {
        self.tiles[position.x as usize * MAX_MAP_TILES_SIZED + position.y as usize].walkable
    }

    /// Sets whether the tile at `position` (on the map) is walkable; every
    /// other tile is unchanged.
    pub fn set_walkable(&mut self, position: &Point, walkable: bool)
        requires
            old(self).wf(),
            position.x < MAX_MAP_TILES,
            position.y < MAX_MAP_TILES,
        ensures
            final(self).wf(),
            final(self)@ == old(self)@.update(tile_index(position.x as int, position.y as int), walkable),
    {
        let index = position.x as usize * MAX_MAP_TILES_SIZED + position.y as usize;
        self.tiles.set(index, MapTile { walkable });
        assert(self@ =~= old(self)@.update(tile_index(position.x as int, position.y as int), walkable));
    }
}

/// Distinct on-map points are distinct tiles, so setting one tile leaves
/// every other point's walkability unchanged.
pub proof fn lemma_tile_index_injective(a: Point, b: Point)
    requires
        a.x < MAX_MAP_TILES && a.y < MAX_MAP_TILES,
        b.x < MAX_MAP_TILES && b.y < MAX_MAP_TILES,
        a != b,
    ensures
        tile_index(a.x as int, a.y as int) != tile_index(b.x as int, b.y as int),
        0 <= tile_index(a.x as int, a.y as int) < MAX_MAP_TILES_SIZED * MAX_MAP_TILES_SIZED,
{
}

/// What a map click lands on.
#[derive(Debug, PartialEq, Eq, Structural)]
pub enum MapHitTestResult {
    NoHit,
    Enemy,
    Orb,
    Field,
}

/// What the hit test needs to know of one positioned entity of the battle:
/// where it stands, whether it is a character (and the player), an orb, and
/// the points of its fields when it has some (`None` for a field that covers
/// the entity's own position), and whether it has a behavior.
#[derive(Clone, Debug)]
pub struct HitTestEntity {
    pub position: SizedPoint,
    pub is_character: bool,
    pub is_player: bool,
    pub is_orb: bool,
    pub field: Option<Vec<Option<Point>>>,
    pub has_behavior: bool,
}

/// What `e` decides for a click at `p`, if anything.
pub open spec fn entity_hit(e: HitTestEntity, p: Point) -> Option<MapHitTestResult> {
    let covers = e.position.spec_contains(p);
    if covers && e.is_character && !e.is_player {
        Some(MapHitTestResult::Enemy)
    } else if covers && !e.is_character && e.is_orb {
        Some(MapHitTestResult::Orb)
    } else if covers && !e.is_character && e.field is Some && e.has_behavior {
        Some(MapHitTestResult::Field)
    } else if e.has_behavior && (e.field matches Some(points) && points@.contains(Some(p))) {
        Some(MapHitTestResult::Field)
    } else {
        None
    }
}

/// What a click at `p` lands on: the answer of the first entity from `i` on
/// that decides one, or nothing.
pub open spec fn spec_hit_from(entities: Seq<HitTestEntity>, p: Point, i: int) -> MapHitTestResult
    decreases entities.len() - i,
{
    if i < 0 || i >= entities.len() {
        MapHitTestResult::NoHit
    } else {
        match entity_hit(entities[i], p) {
            Some(r) => r,
            None => spec_hit_from(entities, p, i + 1),
        }
    }
}

/// Whether one of `points` is `p`.
fn holds_point(points: &Vec<Option<Point>>, p: &Point) -> (r: bool)
    ensures
        r == points@.contains(Some(*p)),
{
    let mut k: usize = 0;
    while k < points.len()
        invariant
            k <= points@.len(),
            forall|j: int| 0 <= j < k ==> points@[j] != Some(*p),
        decreases points@.len() - k,
    {
        if let Some(q) = points[k] {
            if q.x == p.x && q.y == p.y {
                assert(points@[k as int] == Some(*p));
                return true;
            }
        }
        k = k + 1;
    }
    false
}

/// What a click at `map_position` lands on: walking the entities in order,
/// an enemy character or an orb whose area covers it, a field entity with a
/// behavior that covers it, or a field of such an entity placed on it.
pub fn element_at_location(entities: &Vec<HitTestEntity>, map_position: &Point) -> (r: MapHitTestResult)
    requires
        forall|k: int| 0 <= k < entities@.len() ==> (#[trigger] entities@[k]).position.positions_fit(),
    ensures
        r == spec_hit_from(entities@, *map_position, 0),
{
    let mut k: usize = 0;
    while k < entities.len()
        invariant
            k <= entities@.len(),
            forall|j: int| 0 <= j < entities@.len() ==> (#[trigger] entities@[j]).position.positions_fit(),
            spec_hit_from(entities@, *map_position, 0) == spec_hit_from(entities@, *map_position, k as int),
        decreases entities@.len() - k,
    {
        let e = &entities[k];
        assert(e.position.positions_fit());
        if e.position.contains_point(map_position) {
            if e.is_character {
                if !e.is_player {
                    return MapHitTestResult::Enemy;
                }
            } else if e.is_orb {
                return MapHitTestResult::Orb;
            } else if e.field.is_some() && e.has_behavior {
                return MapHitTestResult::Field;
            }
        }
        if let Some(points) = &e.field {
            if e.has_behavior && holds_point(points, map_position) {
                return MapHitTestResult::Field;
            }
        }
        k = k + 1;
    }
    MapHitTestResult::NoHit
}

} // verus!
