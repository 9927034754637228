use vstd::prelude::*;

use crate::atlas::point::{Point, SizedPoint};

verus! {

/// The index of the first point of `path` outside `caster`.
pub open spec fn is_orb_start(path: Seq<Point>, caster: SizedPoint, i: int) -> bool {
    &&& 0 <= i < path.len()
    &&& !caster.spec_contains(path[i])
    &&& forall|j: int| 0 <= j < i ==> caster.spec_contains(#[trigger] path[j])
}

/// Where an orb cast along `path` by a caster standing on `caster` appears:
/// the first point of the path the caster does not cover. Some point must
/// lie outside the caster.
pub fn orb_start_index(path: &Vec<Point>, caster: &SizedPoint) -> (r: usize)
    requires
        caster.positions_fit(),
        exists|i: int| 0 <= i < path@.len() && !caster.spec_contains(#[trigger] path@[i]),
    ensures
        is_orb_start(path@, *caster, r as int),
{
    let mut i: usize = 0;
    while i < path.len()
        invariant
            caster.positions_fit(),
            i <= path@.len(),
            exists|j: int| 0 <= j < path@.len() && !caster.spec_contains(#[trigger] path@[j]),
            forall|j: int| 0 <= j < i ==> caster.spec_contains(#[trigger] path@[j]),
        decreases path@.len() - i,
    {
        if !caster.contains_point(&path[i]) {
            return i;
        }
        i = i + 1;
    }
    proof {
        let j = choose|j: int| 0 <= j < path@.len() && !caster.spec_contains(#[trigger] path@[j]);
        assert(caster.spec_contains(path@[j]));
    }
    0
}

/// Whether `i` is the first index of `p` in `path`.
pub open spec fn is_first_index(path: Seq<Point>, p: Point, i: int) -> bool {
    &&& 0 <= i < path.len()
    &&& path[i] == p
    &&& forall|j: int| 0 <= j < i ==> #[trigger] path[j] != p
}

/// One move of an orb at `current` along `path` with `speed`: the index it
/// is at, the index it moves to (`speed` further, never past the end of the
/// path), and whether that is the end. The orb must be on its path.
pub fn orb_step(path: &Vec<Point>, current: Point, speed: u32) -> (r: (usize, usize, bool))
    requires
        exists|i: int| 0 <= i < path@.len() && #[trigger] path@[i] == current,
    ensures
        is_first_index(path@, current, r.0 as int),
        r.1 == if r.0 + speed < path@.len() - 1 {
            r.0 + speed
        } else {
            path@.len() - 1
        },
        r.2 == (r.1 == path@.len() - 1),
{
    let mut i: usize = 0;
    while i < path.len() && path[i] != current
        invariant
            i <= path@.len(),
            exists|j: int| 0 <= j < path@.len() && #[trigger] path@[j] == current,
            forall|j: int| 0 <= j < i ==> #[trigger] path@[j] != current,
        decreases path@.len() - i,
    {
        i = i + 1;
    }
    if i == path.len() {
        proof {
            let j = choose|j: int| 0 <= j < path@.len() && #[trigger] path@[j] == current;
            assert(path@[j] != current);
        }
    }
    let last = path.len() - 1;
    let next = if speed as usize >= last - i {
        last
    } else {
        i + speed as usize
    };
    (i, next, next == last)
}

/// The fields an orb at index `current` of `path` marks: the next `speed`
/// points of the path in red (from its own point on), the `speed` after
/// them in orange, as far as the path goes.
pub open spec fn spec_orb_fields(path: Seq<Point>, current: int, speed: int) -> Seq<(Option<Point>, (u8, u8, u8, u8))> {
    Seq::new(
        (if current + 1 + 2 * speed <= path.len() {
            1 + 2 * speed
        } else if current < path.len() {
            path.len() - current
        } else {
            0
        }) as nat,
        |i: int|
            (Some(path[current + i]), if i < speed {
                (255u8, 0u8, 0u8, 140u8)
            } else {
                (230u8, 150u8, 0u8, 140u8)
            }),
    )
}

/// The fields an orb at index `current` of `path` marks ahead of itself.
pub fn orb_movement_fields(path: &Vec<Point>, current: usize, speed: u32) -> (r: Vec<(Option<Point>, (u8, u8, u8, u8))>)
    requires
        current + 1 + 2 * speed <= usize::MAX,
    ensures
        r@ == spec_orb_fields(path@, current as int, speed as int),
{
    let mut fields: Vec<(Option<Point>, (u8, u8, u8, u8))> = Vec::new();
    let count: usize = 1 + 2 * speed as usize;
    let mut i: usize = 0;
    while i < count
        invariant
            count == 1 + 2 * speed,
            current + count <= usize::MAX,
            i <= count,
            fields@ == spec_orb_fields(path@, current as int, speed as int).take(
                if current + i <= path@.len() {
                    i as int
                } else if current < path@.len() {
                    path@.len() - current
                } else {
                    0
                },
            ),
        decreases count - i,
    {
        let color = if i < speed as usize {
            (255u8, 0u8, 0u8, 140u8)
        } else {
            (230u8, 150u8, 0u8, 140u8)
        };
        if current + i < path.len() {
            fields.push((Some(path[current + i]), color));
        }
        i = i + 1;
        assert(fields@ =~= spec_orb_fields(path@, current as int, speed as int).take(
            if current + i <= path@.len() {
                i as int
            } else if current < path@.len() {
                path@.len() - current
            } else {
                0
            },
        ));
    }
    assert(fields@ =~= spec_orb_fields(path@, current as int, speed as int));
    fields
}

} // verus!
