use vstd::prelude::*;

use crate::atlas::direction::Direction;
use crate::atlas::point::{grid_line, line_step, spec_cone, steps_to, Point, SizedPoint, MAX_POINT_SIZE};
use crate::clash::physics::point_in_direction;
use crate::clash::time::BASE_ACTION_COST;
use crate::clash::strength::{gen_range_u32, shuffle};
use rand::rngs::StdRng;

verus! {

/// The directions an enemy tries a cone in, in order (east is tried twice
/// and west never).
pub open spec fn cone_directions() -> Seq<Direction> {
    seq![Direction::North, Direction::East, Direction::South, Direction::East]
}

/// Whether a cone of `size` from `origin` towards `d` reaches `player`.
pub open spec fn cone_reaches(origin: Point, d: Direction, size: u32, player: SizedPoint) -> bool {
    exists|k: int| 0 <= k < spec_cone(origin, d, 0, size as nat).len() && player.spec_contains(#[trigger] spec_cone(origin, d, 0, size as nat)[k])
}

/// The first of `cone_directions()` from index `j` on whose cone from
/// `origin` reaches `player`.
pub open spec fn first_striking_direction(origin: Point, size: u32, player: SizedPoint, j: int) -> Option<Direction>
    decreases 4 - j,
{
    if j < 0 || j >= 4 {
        None
    } else if cone_reaches(origin, cone_directions()[j], size, player) {
        Some(cone_directions()[j])
    } else {
        first_striking_direction(origin, size, player, j + 1)
    }
}

/// The tile an enemy standing on `origins[i..]` aims a cone of `size` at to
/// reach `player`: the first origin (in order) with a direction that
/// reaches, one step that way from it.
pub open spec fn spec_cone_strike(origins: Seq<Point>, size: u32, player: SizedPoint, i: int) -> Option<Point>
    decreases origins.len() - i,
{
    if i < 0 || i >= origins.len() {
        None
    } else {
        match first_striking_direction(origins[i], size, player, 0) {
            Some(d) => d.spec_point_in_direction(origins[i]),
            None => spec_cone_strike(origins, size, player, i + 1),
        }
    }
}

/// Whether every tile of `position` can take a step in each cone direction.
pub open spec fn cone_steps_fit(position: SizedPoint) -> bool {
    forall|k: int|
        0 <= k < position.spec_all_positions().len() ==> {
            let p = #[trigger] position.spec_all_positions()[k];
            Direction::North.step_fits(p) && Direction::East.step_fits(p) && Direction::South.step_fits(p)
        }
}

/// Whether a cone of `size` from `origin` towards `d` reaches `player`.
fn cone_hits_player(origin: &Point, d: Direction, size: u32, player: &SizedPoint) -> (r: bool)
    requires
        d.is_cardinal(),
        d.step_fits(*origin),
        player.positions_fit(),
    ensures
        r == cone_reaches(*origin, d, size, *player),
{
    let cone = origin.get_cone(d, size);
    let mut k: usize = 0;
    while k < cone.len()
        invariant
            player.positions_fit(),
            cone@ == spec_cone(*origin, d, 0, size as nat),
            k <= cone@.len(),
            forall|j: int| 0 <= j < k ==> !player.spec_contains(#[trigger] cone@[j]),
        decreases cone@.len() - k,
    {
        if player.contains_point(&cone[k]) {
            return true;
        }
        k = k + 1;
    }
    false
}

/// Where an enemy standing on `position` can fire a cone of `size` that
/// reaches the player standing on `player_position`: one step from the first
/// of its tiles, in the first direction, whose cone reaches the player.
pub fn check_for_cone_striking_player(position: &SizedPoint, player_position: &SizedPoint, size: u32) -> (r: Option<Point>)
    requires
        position.positions_fit(),
        player_position.positions_fit(),
        cone_steps_fit(*position),
    ensures
        r == spec_cone_strike(position.spec_all_positions(), size, *player_position, 0),
{
    let origins = position.all_positions();
    let directions = [Direction::North, Direction::East, Direction::South, Direction::East];
    let mut i: usize = 0;
    while i < origins.len()
        invariant
            player_position.positions_fit(),
            cone_steps_fit(*position),
            origins@ == position.spec_all_positions(),
            directions@ == cone_directions(),
            i <= origins@.len(),
            spec_cone_strike(origins@, size, *player_position, 0) == spec_cone_strike(origins@, size, *player_position, i as int),
        decreases origins@.len() - i,
    {
        let origin = origins[i];
        let ghost p = position.spec_all_positions()[i as int];
        assert(Direction::North.step_fits(p) && Direction::East.step_fits(p) && Direction::South.step_fits(p));
        let mut j: usize = 0;
        while j < 4
            invariant
                player_position.positions_fit(),
                i < origins@.len(),
                origins@ == position.spec_all_positions(),
                spec_cone_strike(origins@, size, *player_position, 0) == spec_cone_strike(origins@, size, *player_position, i as int),
                origin == origins@[i as int],
                Direction::North.step_fits(origin) && Direction::East.step_fits(origin) && Direction::South.step_fits(origin),
                directions@ == cone_directions(),
                j <= 4,
                first_striking_direction(origin, size, *player_position, 0) == first_striking_direction(origin, size, *player_position, j as int),
            decreases 4 - j,
        {
            let d = directions[j];
            if cone_hits_player(&origin, d, size, player_position) {
                let ghost cone = spec_cone(origin, d, 0, size as nat);
                assert(cone.len() > 0);
                assert(first_striking_direction(origin, size, *player_position, j as int) == Some(d));
                let target = d.point_in_direction(&origin);
                match target {
                    Some(t) => {
                        return Some(t);
                    },
                    None => {
                        assert(false);
                    },
                }
            }
            j = j + 1;
        }
        assert(first_striking_direction(origin, size, *player_position, 4) is None);
        i = i + 1;
    }
    None
}

/// A direction drawn from `rng`: north, south, east or west.
pub fn random_direction(rng: &mut StdRng) -> (r: Direction)
    ensures
        r == Direction::North || r == Direction::South || r == Direction::East || r == Direction::West,
{
    match gen_range_u32(rng, 0, 4) {
        0 => Direction::North,
        1 => Direction::South,
        2 => Direction::East,
        _ => Direction::West,
    }
}

/// The four straight directions in an order drawn from `rng`.
pub fn get_random_direction_list(rng: &mut StdRng) -> (r: Vec<Direction>)
    ensures
        r@.to_multiset() == seq![Direction::North, Direction::West, Direction::South, Direction::East].to_multiset(),
{
    let mut directions = vec![Direction::North, Direction::West, Direction::South, Direction::East];
    shuffle(&mut directions, rng);
    directions
}

/// All eight directions in an order drawn from `rng`.
pub fn get_random_full_direction_list(rng: &mut StdRng) -> (r: Vec<Direction>)
    ensures
        r@.to_multiset() == seq![
            Direction::North,
            Direction::NorthWest,
            Direction::West,
            Direction::SouthWest,
            Direction::South,
            Direction::SouthEast,
            Direction::East,
            Direction::NorthEast,
        ].to_multiset(),
{
    let mut directions = vec![
        Direction::North,
        Direction::NorthWest,
        Direction::West,
        Direction::SouthWest,
        Direction::South,
        Direction::SouthEast,
        Direction::East,
        Direction::NorthEast,
    ];
    shuffle(&mut directions, rng);
    directions
}

/// Whether the player may act now: the next character to act is the player
/// (`player`), and the player has exactly one action's worth of ticks.
pub fn can_act(next_actor: Option<u64>, player: u64, player_ticks: i32) -> (r: bool)
    ensures
        r == (next_actor == Some(player) && player_ticks == BASE_ACTION_COST),
{
    let is_player = match next_actor {
        Some(actor) => actor == player,
        None => false,
    };
    is_player && player_ticks == BASE_ACTION_COST
}

/// Where a player standing at `position` moves when asked to step towards
/// `direction`: nowhere when it cannot act now or the step is not a
/// cardinal step on the map.
pub fn player_move(can_act: bool, position: &SizedPoint, direction: Direction) -> (r: Option<SizedPoint>)
    requires
        direction.step_fits(position.origin),
    ensures
        !can_act ==> r is None,
        can_act && direction.is_cardinal() ==> r == (match direction.spec_point_in_direction(position.origin) {
            Some(o) => Some(SizedPoint { origin: o, width: position.width, height: position.height }),
            None => None,
        }),
        !direction.is_cardinal() ==> r is None,
{
    if !can_act {
        return None;
    }
    point_in_direction(position, direction)
}

/// Who acts once time has run to the next actor.
pub enum TurnDecision {
    /// The player acts.
    Player,
    /// This enemy takes its action.
    Enemy(u64),
    /// No one is left to act.
    NoOne,
}

/// Who acts next, the next actor being `next` and the player `player`.
pub fn tick_next_action(next: Option<u64>, player: u64) -> (r: TurnDecision)
    ensures
        next is None ==> r is NoOne,
        next == Some(player) ==> r is Player,
        next is Some && next->0 != player ==> r == TurnDecision::Enemy(next->0),
{
    match next {
        Some(e) => if e == player {
            TurnDecision::Player
        } else {
            TurnDecision::Enemy(e)
        },
        None => TurnDecision::NoOne,
    }
}

/// Where an enemy at `current` steps to move towards the player at
/// `player`: one step along the line from its tile nearest the player's
/// origin, keeping its size. The caller moves it there when the tile is safe.
pub fn move_towards_player(current: &SizedPoint, player: &SizedPoint) -> (r: SizedPoint)
    requires
        current.positions_fit(),
        current.tiles_on_map(),
        current.width * current.height > 0,
        player.origin.x < MAX_POINT_SIZE && player.origin.y < MAX_POINT_SIZE,
        steps_to(
            current.spec_nearest(player.origin.x as int, player.origin.y as int),
            player.origin.x as int,
            player.origin.y as int,
        ) >= 1,
    ensures
        r.width == current.width && r.height == current.height,
        r.origin == current.spec_line_to_extended(player.origin.x as int, player.origin.y as int)->0[1],
        line_step(
            current.spec_nearest(player.origin.x as int, player.origin.y as int),
            r.origin,
            current.spec_nearest(player.origin.x as int, player.origin.y as int),
            player.origin,
        ),
{
    proof {
        current.lemma_nearest(player.origin.x as int, player.origin.y as int);
        current.lemma_distance_ready_on_map(player.origin);
    }
    let path = current.line_to(player.origin).unwrap();
    proof {
        let n = current.spec_nearest(player.origin.x as int, player.origin.y as int);
        assert(grid_line(path@, n, player.origin));
        assert(path@.len() >= 2);
        assert(line_step(path@[0], path@[1], n, player.origin));
    }
    current.move_to(path[1])
}

/// The first of `allies` (each its position and whether it already has the
/// buff) that lacks the buff and stands within `range` steps of `position`.
pub fn any_ally_without_buff_in_range(position: &SizedPoint, allies: &Vec<(SizedPoint, bool)>, range: u32) -> (r: Option<usize>)
    requires
        position.positions_fit(),
        position.tiles_on_map(),
        forall|j: int| 0 <= j < allies@.len() ==> (#[trigger] allies@[j]).0.positions_fit() && allies@[j].0.tiles_on_map(),
    ensures
        r matches Some(j) ==> j < allies@.len() && ally_in_reach(position, allies@[j as int], range) && forall|k: int|
            0 <= k < j ==> !ally_in_reach(position, #[trigger] allies@[k], range),
        r is None ==> forall|k: int| 0 <= k < allies@.len() ==> !ally_in_reach(position, #[trigger] allies@[k], range),
{
    let mut j: usize = 0;
    while j < allies.len()
        invariant
            position.positions_fit(),
            position.tiles_on_map(),
            forall|k: int| 0 <= k < allies@.len() ==> (#[trigger] allies@[k]).0.positions_fit() && allies@[k].0.tiles_on_map(),
            j <= allies@.len(),
            forall|k: int| 0 <= k < j ==> !ally_in_reach(position, #[trigger] allies@[k], range),
        decreases allies@.len() - j,
    {
        let (ally, has_buff) = allies[j];
        if !has_buff {
            proof {
                assert forall|q: Point| #[trigger] ally.spec_contains(q) implies position.distance_ready(q) by {
                    position.lemma_distance_ready_on_map(q);
                }
            }
            let distance = match position.distance_to_multi(ally) {
                Some(d) => d,
                None => u32::MAX,
            };
            if distance <= range {
                return Some(j);
            }
        }
        j = j + 1;
    }
    None
}

/// Whether an ally (its position and whether it already has the buff)
/// lacks the buff and is within `range` steps of `position`, a missing
/// distance counting as the farthest.
pub open spec fn ally_in_reach(position: &SizedPoint, ally: (SizedPoint, bool), range: u32) -> bool {
    !ally.1 && match position.spec_distance_to_multi(ally.0) {
        Some(d) => d <= range,
        None => u32::MAX <= range,
    }
}

/// The tile of the player at `player` that an enemy at `current` aims a
/// skill of `range` at: the player's tile nearest to the enemy, when it is
/// within range. The caller uses the skill there when the skill can be used.
pub fn use_skill_at_player_if_in_range(current: &SizedPoint, player: &SizedPoint, range: u32) -> (r: Option<Point>)
    requires
        current.positions_fit(),
        current.tiles_on_map(),
        player.positions_fit(),
        player.tiles_on_map(),
    ensures
        r == (match current.spec_distance_to_multi_with_endpoints(*player) {
            Some((_, t, d)) => if d <= range {
                Some(t)
            } else {
                None
            },
            None => None,
        }),
{
    proof {
        assert forall|q: Point| #[trigger] player.spec_contains(q) implies current.distance_ready(q) by {
            current.lemma_distance_ready_on_map(q);
        }
    }
    match current.distance_to_multi_with_endpoints(*player) {
        Some((_, target, distance)) => if distance <= range {
            Some(target)
        } else {
            None
        },
        None => None,
    }
}

} // verus!
