use vstd::prelude::*;

verus! {

/// The time cost of a standard action.
pub const BASE_ACTION_COST: i32 = 100;

/// The time cost of moving one step.
pub const MOVE_ACTION_COST: i32 = BASE_ACTION_COST;

/// How much time a character has accumulated towards acting.
#[derive(Hash, PartialEq, Eq, Structural, Clone, Copy)]
pub struct TimeComponent {
    pub ticks: i32,
}

impl TimeComponent {
    /// A time of `ticks` ticks.
    pub fn init(ticks: i32) -> (r: TimeComponent)
        ensures
            r.ticks == ticks,
    {
        TimeComponent { ticks }
    }
}

/// Whether `i` is the last index of a greatest number of ticks in `times`.
pub open spec fn is_last_max<E>(times: Seq<(E, i32)>, i: int) -> bool {
    &&& 0 <= i < times.len()
    &&& forall|k: int| 0 <= k < times.len() ==> (#[trigger] times[k]).1 <= times[i].1
    &&& forall|k: int| i < k < times.len() ==> (#[trigger] times[k]).1 < times[i].1
}

/// The next to act among the timed actors (listed in entity order with their
/// ticks): the one with the most ticks, the last listed on a tie; `None` when
/// there is no actor.
pub fn get_next_actor<E: Copy>(times: &Vec<(E, i32)>) -> (r: Option<E>)
    ensures
        times@.len() == 0 ==> r is None,
        times@.len() > 0 ==> exists|i: int| #[trigger] is_last_max(times@, i) && r == Some(times@[i].0),
{
    if times.len() == 0 {
        return None;
    }
    let mut best: usize = 0;
    let mut k: usize = 1;
    while k < times.len()
        invariant
            1 <= k <= times@.len(),
            best < k,
            forall|j: int| 0 <= j < k ==> (#[trigger] times@[j]).1 <= times@[best as int].1,
            forall|j: int| best < j < k ==> (#[trigger] times@[j]).1 < times@[best as int].1,
        decreases times@.len() - k,
    {
        if times[k].1 >= times[best].1 {
            best = k;
        }
        k = k + 1;
    }
    assert(is_last_max(times@, best as int));
    Some(times[best].0)
}

/// The last index of a greatest number of ticks is unique.
pub proof fn lemma_last_max_unique<E>(times: Seq<(E, i32)>, i: int, j: int)
    requires
        is_last_max(times, i),
        is_last_max(times, j),
    ensures
        i == j,
{
    if i < j {
        assert(times[j].1 < times[i].1);
    } else if j < i {
        assert(times[i].1 < times[j].1);
    }
}

/// Adds `ticks_to_add` to every actor's time.
pub fn add_ticks<E: Copy>(times: &mut Vec<(E, i32)>, ticks_to_add: i32)
    requires
        forall|k: int| 0 <= k < old(times)@.len() ==> i32::MIN <= (#[trigger] old(times)@[k]).1 + ticks_to_add <= i32::MAX,
    ensures
        final(times)@.len() == old(times)@.len(),
        forall|k: int|
            0 <= k < final(times)@.len() ==> (#[trigger] final(times)@[k]).0 == old(times)@[k].0 && final(times)@[k].1 == old(times)@[k].1 + ticks_to_add,
{
    let mut k: usize = 0;
    while k < times.len()
        invariant
            k <= times@.len(),
            times@.len() == old(times)@.len(),
            forall|j: int| 0 <= j < old(times)@.len() ==> i32::MIN <= (#[trigger] old(times)@[j]).1 + ticks_to_add <= i32::MAX,
            forall|j: int| 0 <= j < k ==> (#[trigger] times@[j]).0 == old(times)@[j].0 && times@[j].1 == old(times)@[j].1 + ticks_to_add,
            forall|j: int| k <= j < times@.len() ==> #[trigger] times@[j] == old(times)@[j],
        decreases times@.len() - k,
    {
        let (entity, ticks) = times[k];
        times.set(k, (entity, ticks + ticks_to_add));
        k = k + 1;
    }
}

/// Picks the next actor and, if it has less than a full action's time,
/// advances everyone's time by what it lacks.
pub fn wait_for_next<E: Copy>(times: &mut Vec<(E, i32)>) -> (r: Option<E>)
    requires
        forall|k: int| 0 <= k < old(times)@.len() ==> 0 <= #[trigger] old(times)@[k].1 <= i32::MAX - BASE_ACTION_COST,
    ensures
        old(times)@.len() == 0 ==> r is None && final(times)@ == old(times)@,
        old(times)@.len() > 0 ==> exists|i: int|
            #[trigger] is_last_max(old(times)@, i) && r == Some(old(times)@[i].0) && {
                let missing = if old(times)@[i].1 < BASE_ACTION_COST {
                    BASE_ACTION_COST - old(times)@[i].1
                } else {
                    0
                };
                &&& final(times)@.len() == old(times)@.len()
                &&& final(times)@[i].1 >= BASE_ACTION_COST
                &&& forall|k: int|
                    0 <= k < final(times)@.len() ==> (#[trigger] final(times)@[k]).0 == old(times)@[k].0
                        && final(times)@[k].1 == old(times)@[k].1 + missing
            },
{
    if times.len() == 0 {
        return None;
    }
    let mut best: usize = 0;
    let mut k: usize = 1;
    while k < times.len()
        invariant
            1 <= k <= times@.len(),
            best < k,
            forall|j: int| 0 <= j < k ==> (#[trigger] times@[j]).1 <= times@[best as int].1,
            forall|j: int| best < j < k ==> (#[trigger] times@[j]).1 < times@[best as int].1,
        decreases times@.len() - k,
    {
        if times[k].1 >= times[best].1 {
            best = k;
        }
        k = k + 1;
    }
    let next = times[best].0;
    let time = times[best].1;
    if time < BASE_ACTION_COST {
        let missing = BASE_ACTION_COST - time;
        add_ticks(times, missing);
    } else {
        assert(times@ == old(times)@);
    }
    assert(is_last_max(old(times)@, best as int));
    Some(next)
}

/// The time left after spending `ticks_to_spend`; it must not go below zero.
pub fn spend_time(ticks: i32, ticks_to_spend: i32) -> (r: i32)
    requires
        0 <= ticks - ticks_to_spend <= i32::MAX,
    ensures
        r == ticks - ticks_to_spend,
{
    ticks - ticks_to_spend
}

} // verus!
