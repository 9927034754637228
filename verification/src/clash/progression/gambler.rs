use rand::rngs::StdRng;
use rand::seq::SliceRandom;
use vstd::prelude::*;

use super::equipment::{same_item, EquipmentItem, EquipmentRarity, EquipmentResource};
use super::progression_component::{NameSet, ProgressionComponent};

verus! {

/// The total of the counts in a list of (rarity, count) pairs.
pub open spec fn pair_total(s: Seq<(EquipmentRarity, u32)>) -> int
    decreases s.len(),
{
    if s.len() == 0 {
        0
    } else {
        pair_total(s.drop_last()) + s.last().1
    }
}

/// The total of the counts given for `rarity` in a list of pairs.
pub open spec fn request_count(s: Seq<(EquipmentRarity, u32)>, rarity: EquipmentRarity) -> int
    decreases s.len(),
{
    if s.len() == 0 {
        0
    } else {
        request_count(s.drop_last(), rarity) + if s.last().0 == rarity {
            s.last().1 as int
        } else {
            0
        }
    }
}

/// How many times `rarity` occurs in `draws`.
pub open spec fn draw_count(draws: Seq<EquipmentRarity>, rarity: EquipmentRarity) -> int
    decreases draws.len(),
{
    if draws.len() == 0 {
        0
    } else {
        draw_count(draws.drop_last(), rarity) + if draws.last() == rarity {
            1int
        } else {
            0
        }
    }
}

/// Whether no two pairs name the same rarity.
pub open spec fn distinct_rarities(s: Seq<(EquipmentRarity, u32)>) -> bool {
    forall|i: int, j: int| 0 <= i < s.len() && 0 <= j < s.len() && i != j ==> (#[trigger] s[i]).0 != (#[trigger] s[j]).0
}

/// `SliceRandom::choose_weighted` of rand with the weight of each pair taken
/// from its count: a rarity drawn with probability proportional to its
/// weight. The contract claims what holds of every draw: there is one exactly
/// when some weight is positive, and it is the rarity of a pair with a
/// positive weight. Which one comes out is left unsaid. rand adds the weights
/// up, so `requires` keeps their total within `u32`.
#[verifier::external_body]
fn choose_weighted_rarity(choices: &[(EquipmentRarity, u32)], rng: &mut StdRng) -> (r: Option<EquipmentRarity>)
    requires
        pair_total(choices@) <= u32::MAX,
    ensures
        r.is_some() == (exists|k: int| 0 <= k < choices@.len() && (#[trigger] choices@[k]).1 > 0),
        r.is_some() ==> exists|k: int| 0 <= k < choices@.len() && (#[trigger] choices@[k]).0 == r.unwrap() && choices@[k].1 > 0,
{
    match choices.choose_weighted(rng, |c| c.1) {
        Ok(c) => Some(c.0),
        Err(_) => None,
    }
}

/// A prefix's count never exceeds the whole count.
proof fn lemma_draw_count_bound(draws: Seq<EquipmentRarity>, rarity: EquipmentRarity)
    ensures
        0 <= draw_count(draws, rarity) <= draws.len(),
    decreases draws.len(),
{
    if draws.len() > 0 {
        lemma_draw_count_bound(draws.drop_last(), rarity);
    }
}

/// Raising the count of one pair by one raises the total by one.
proof fn lemma_pair_total_bump(s: Seq<(EquipmentRarity, u32)>, i: int, v: (EquipmentRarity, u32))
    requires
        0 <= i < s.len(),
        v.1 == s[i].1 + 1,
    ensures
        pair_total(s.update(i, v)) == pair_total(s) + 1,
    decreases s.len(),
{
    let t = s.update(i, v);
    if i == s.len() - 1 {
        assert(t.drop_last() =~= s.drop_last());
    } else {
        lemma_pair_total_bump(s.drop_last(), i, v);
        assert(t.drop_last() =~= s.drop_last().update(i, v));
    }
}

/// The rarities of `draws` with how often each was drawn, each rarity once,
/// in the order they first appear.
pub fn tally_rewards(draws: &Vec<EquipmentRarity>) -> (r: Vec<(EquipmentRarity, u32)>)
    requires
        draws@.len() <= u32::MAX,
    ensures
        distinct_rarities(r@),
        forall|k: int| 0 <= k < r@.len() ==> (#[trigger] r@[k]).1 == draw_count(draws@, r@[k].0) && r@[k].1 > 0,
        forall|x: EquipmentRarity| draws@.contains(x) ==> exists|k: int| 0 <= k < r@.len() && (#[trigger] r@[k]).0 == x,
        pair_total(r@) == draws@.len(),
{
    let mut out: Vec<(EquipmentRarity, u32)> = Vec::new();
    let mut k: usize = 0;
    while k < draws.len()
        invariant
            draws@.len() <= u32::MAX,
            k <= draws@.len(),
            distinct_rarities(out@),
            forall|i: int| 0 <= i < out@.len() ==> (#[trigger] out@[i]).1 == draw_count(draws@.take(k as int), out@[i].0) && out@[i].1 > 0,
            forall|x: EquipmentRarity| draw_count(draws@.take(k as int), x) > 0 ==> exists|i: int| 0 <= i < out@.len() && (#[trigger] out@[i]).0 == x,
            pair_total(out@) == k,
        decreases draws@.len() - k,
    {
        let d = draws[k];
        let ghost prefix = draws@.take(k as int);
        let ghost next = draws@.take(k + 1);
        assert(next.drop_last() =~= prefix);
        assert forall|x: EquipmentRarity| #[trigger] draw_count(next, x) == draw_count(prefix, x) + if x == d { 1int } else { 0 } by {}
        let mut i: usize = 0;
        while i < out.len() && out[i].0 != d
            invariant
                i <= out@.len(),
                forall|j: int| 0 <= j < i ==> (#[trigger] out@[j]).0 != d,
            decreases out@.len() - i,
        {
            i = i + 1;
        }
        proof {
            lemma_draw_count_bound(prefix, d);
        }
        let ghost before = out@;
        if i < out.len() {
            let c = out[i].1;
            out.set(i, (d, c + 1));
            proof {
                lemma_pair_total_bump(before, i as int, (d, (c + 1) as u32));
                assert forall|x: EquipmentRarity| draw_count(next, x) > 0 implies exists|j: int| 0 <= j < out@.len() && (#[trigger] out@[j]).0 == x by {
                    if x == d {
                        assert(out@[i as int].0 == x);
                    } else {
                        let j = choose|j: int| 0 <= j < before.len() && (#[trigger] before[j]).0 == x;
                        assert(out@[j].0 == x);
                    }
                }
            }
        } else {
            proof {
                if draw_count(prefix, d) > 0 {
                    let j = choose|j: int| 0 <= j < before.len() && (#[trigger] before[j]).0 == d;
                    assert(false);
                }
            }
            out.push((d, 1));
            proof {
                assert(out@.drop_last() =~= before);
                assert forall|x: EquipmentRarity| draw_count(next, x) > 0 implies exists|j: int| 0 <= j < out@.len() && (#[trigger] out@[j]).0 == x by {
                    if x == d {
                        assert(out@[before.len() as int].0 == x);
                    } else {
                        let j = choose|j: int| 0 <= j < before.len() && (#[trigger] before[j]).0 == x;
                        assert(out@[j].0 == x);
                    }
                }
            }
        }
        k = k + 1;
    }
    proof {
        assert(draws@.take(k as int) =~= draws@);
        assert forall|x: EquipmentRarity| draws@.contains(x) implies exists|i: int| 0 <= i < out@.len() && (#[trigger] out@[i]).0 == x by {
            let j = choose|j: int| 0 <= j < draws@.len() && draws@[j] == x;
            lemma_draw_count_positive(draws@, j);
        }
    }
    out
}

/// A rarity drawn somewhere is counted.
proof fn lemma_draw_count_positive(draws: Seq<EquipmentRarity>, j: int)
    requires
        0 <= j < draws.len(),
    ensures
        draw_count(draws, draws[j]) > 0,
    decreases draws.len(),
{
    if j < draws.len() - 1 {
        lemma_draw_count_positive(draws.drop_last(), j);
        lemma_draw_count_bound(draws.drop_last(), draws[j]);
    } else {
        lemma_draw_count_bound(draws.drop_last(), draws[j]);
    }
}

/// The odds of each rarity among rewards, out of 100.
pub open spec fn reward_odds() -> Seq<(EquipmentRarity, u32)> {
    seq![(EquipmentRarity::Common, 75u32), (EquipmentRarity::Uncommon, 15u32), (EquipmentRarity::Rare, 10u32)]
}

/// The odds of each rarity among rewards: common 75, uncommon 15 and rare
/// 10 in 100.
pub fn reward_choices() -> (r: Vec<(EquipmentRarity, u32)>)
    ensures
        r@ == reward_odds(),
{
    let r = vec![(EquipmentRarity::Common, 75u32), (EquipmentRarity::Uncommon, 15u32), (EquipmentRarity::Rare, 10u32)];
    assert(r@ =~= reward_odds());
    r
}

/// Whether `rarity` has a chance among rewards.
pub open spec fn has_reward_chance(rarity: EquipmentRarity) -> bool {
    exists|j: int| 0 <= j < reward_odds().len() && (#[trigger] reward_odds()[j]).0 == rarity && reward_odds()[j].1 > 0
}

/// Draws `count` reward rarities, each by the odds of `reward_choices`,
/// and tallies them: each drawn rarity once with how often it came up.
pub fn get_reward_request(rng: &mut StdRng, count: u32) -> (r: Vec<(EquipmentRarity, u32)>)
    ensures
        distinct_rarities(r@),
        forall|k: int| 0 <= k < r@.len() ==> (#[trigger] r@[k]).1 > 0 && r@[k].0 != EquipmentRarity::Standard,
        forall|k: int| 0 <= k < r@.len() ==> has_reward_chance(#[trigger] r@[k].0),
        pair_total(r@) == count,
{
    let choices = reward_choices();
    assert(pair_total(choices@) == 100) by {
        reveal_with_fuel(pair_total, 4);
    }
    let mut draws: Vec<EquipmentRarity> = Vec::new();
    let mut k: u32 = 0;
    while k < count
        invariant
            k <= count,
            draws@.len() == k,
            pair_total(choices@) == 100,
            choices@ == seq![(EquipmentRarity::Common, 75u32), (EquipmentRarity::Uncommon, 15u32), (EquipmentRarity::Rare, 10u32)],
            forall|j: int| 0 <= j < draws@.len() ==> #[trigger] draws@[j] != EquipmentRarity::Standard,
            forall|j: int| 0 <= j < draws@.len() ==> has_reward_chance(#[trigger] draws@[j]),
        decreases count - k,
    {
        assert(choices@[0].1 > 0);
        let drawn = choose_weighted_rarity(choices.as_slice(), rng);
        match drawn {
            Some(x) => {
                draws.push(x);
                proof {
                    let j = choose|j: int| 0 <= j < choices@.len() && (#[trigger] choices@[j]).0 == x && choices@[j].1 > 0;
                    assert(choices@ == reward_odds());
                    assert(reward_odds()[j].0 == x && reward_odds()[j].1 > 0);
                }
                assert(has_reward_chance(x));
            },
            None => {
                assert(false);
            },
        }
        k = k + 1;
    }
    let r = tally_rewards(&draws);
    proof {
        assert forall|k: int| 0 <= k < r@.len() implies (#[trigger] r@[k]).1 > 0 && r@[k].0 != EquipmentRarity::Standard by {
            if r@[k].0 == EquipmentRarity::Standard {
                lemma_draw_count_zero(draws@, EquipmentRarity::Standard);
            }
        }
        assert forall|k: int| 0 <= k < r@.len() implies has_reward_chance(#[trigger] r@[k].0) by {
            if !has_reward_chance(r@[k].0) {
                lemma_draw_count_zero(draws@, r@[k].0);
            }
        }
    }
    r
}

/// A rarity that never occurs has count zero.
proof fn lemma_draw_count_zero(draws: Seq<EquipmentRarity>, rarity: EquipmentRarity)
    requires
        forall|j: int| 0 <= j < draws.len() ==> #[trigger] draws[j] != rarity,
    ensures
        draw_count(draws, rarity) == 0,
    decreases draws.len(),
{
    if draws.len() > 0 {
        assert(draws[draws.len() - 1] != rarity);
        lemma_draw_count_zero(draws.drop_last(), rarity);
    }
}

/// The names of a list of items, in order.
pub open spec fn names_of(items: Seq<EquipmentItem>) -> Seq<Seq<char>> {
    items.map_values(|i: EquipmentItem| i.name@)
}

/// The names in `catalog` of items of `rarity` that are not in `owned`.
pub open spec fn available_names(catalog: Map<Seq<char>, EquipmentItem>, owned: Set<Seq<char>>, rarity: EquipmentRarity) -> Set<
    Seq<char>,
> {
    catalog.dom().filter(|n: Seq<char>| catalog[n].rarity == rarity && !owned.contains(n))
}

/// The smaller of two numbers.
pub open spec fn min_int(a: int, b: int) -> int {
    if a < b {
        a
    } else {
        b
    }
}

/// How many rare, uncommon and common items are handed out for `rr`, `ur`
/// and `cr` requested when `ra`, `ua` and `ca` are on offer: each rarity
/// gets what was asked of it, as far as there is stock, and what rare stock
/// cannot cover is asked of uncommon, what uncommon cannot cover of common.
pub open spec fn spec_downgrade(rr: int, ur: int, cr: int, ra: int, ua: int, ca: int) -> (int, int, int) {
    let rare = min_int(rr, ra);
    let ur2 = ur + (rr - rare);
    let unc = min_int(ur2, ua);
    let cr2 = cr + (ur2 - unc);
    (rare, unc, min_int(cr2, ca))
}

/// Whether the requests, once passed down, still fit in `u32`.
pub open spec fn downgrade_fits(rr: int, ur: int, cr: int, ra: int, ua: int, ca: int) -> bool {
    let rare = min_int(rr, ra);
    let ur2 = ur + (rr - rare);
    let unc = min_int(ur2, ua);
    let cr2 = cr + (ur2 - unc);
    ur2 <= u32::MAX && cr2 <= u32::MAX
}

/// Whether the total of the requests, once passed down, fits in `u32`.
pub open spec fn downgrade_total_fits(rr: int, ur: int, cr: int, ra: int, ua: int, ca: int) -> bool {
    let rare = min_int(rr, ra);
    let ur2 = ur + (rr - rare);
    let unc = min_int(ur2, ua);
    let cr2 = cr + (ur2 - unc);
    rr + ur2 + cr2 <= u32::MAX
}

/// How many rare, uncommon and common items are handed out, passing what
/// one rarity cannot cover down to the next.
pub fn downgrade_counts(rr: u32, ur: u32, cr: u32, ra: u32, ua: u32, ca: u32) -> (r: (u32, u32, u32))
    requires
        downgrade_fits(rr as int, ur as int, cr as int, ra as int, ua as int, ca as int),
    ensures
        (r.0 as int, r.1 as int, r.2 as int) == spec_downgrade(rr as int, ur as int, cr as int, ra as int, ua as int, ca as int),
{
    let mut uncommon_request_count = ur;
    let mut common_request_count = cr;
    let rare_count = if rr < ra {
        rr
    } else {
        ra
    };
    if rare_count < rr {
        uncommon_request_count = uncommon_request_count + (rr - rare_count);
    }
    let uncommon_count = if uncommon_request_count < ua {
        uncommon_request_count
    } else {
        ua
    };
    if uncommon_count < uncommon_request_count {
        common_request_count = common_request_count + (uncommon_request_count - uncommon_count);
    }
    let common_count = if common_request_count < ca {
        common_request_count
    } else {
        ca
    };
    (rare_count, uncommon_count, common_count)
}

/// A prefix's request count never exceeds the whole count.
proof fn lemma_request_count_prefix(s: Seq<(EquipmentRarity, u32)>, k: int, rarity: EquipmentRarity)
    requires
        0 <= k <= s.len(),
    ensures
        0 <= request_count(s.take(k), rarity) <= request_count(s, rarity),
    decreases s.len(),
{
    if k == s.len() {
        assert(s.take(k) =~= s);
        lemma_request_count_nonneg(s, rarity);
    } else {
        lemma_request_count_prefix(s.drop_last(), k, rarity);
        assert(s.drop_last().take(k) =~= s.take(k));
    }
}

proof fn lemma_request_count_nonneg(s: Seq<(EquipmentRarity, u32)>, rarity: EquipmentRarity)
    ensures
        0 <= request_count(s, rarity),
    decreases s.len(),
{
    if s.len() > 0 {
        lemma_request_count_nonneg(s.drop_last(), rarity);
    }
}

/// The total requested for `rarity`.
fn requested(requests: &Vec<(EquipmentRarity, u32)>, rarity: EquipmentRarity) -> (r: u32)
    requires
        request_count(requests@, rarity) <= u32::MAX,
    ensures
        r == request_count(requests@, rarity),
{
    let mut total: u32 = 0;
    let mut k: usize = 0;
    while k < requests.len()
        invariant
            k <= requests@.len(),
            request_count(requests@, rarity) <= u32::MAX,
            total == request_count(requests@.take(k as int), rarity),
        decreases requests@.len() - k,
    {
        assert(requests@.take(k + 1).drop_last() =~= requests@.take(k as int));
        proof {
            lemma_request_count_prefix(requests@, k + 1, rarity);
        }
        if requests[k].0 == rarity {
            total = total + requests[k].1;
        }
        k = k + 1;
    }
    assert(requests@.take(k as int) =~= requests@);
    total
}

/// The items of `all` of `rarity` whose names are not in `owned`, in order.
fn available_of(all: &Vec<EquipmentItem>, owned: &NameSet, rarity: EquipmentRarity) -> (r: Vec<EquipmentItem>)
    requires
        names_of(all@).no_duplicates(),
    ensures
        names_of(r@).no_duplicates(),
        forall|j: int| 0 <= j < r@.len() ==> (#[trigger] r@[j]).rarity == rarity && !owned@.contains(r@[j].name@)
            && exists|i: int| 0 <= i < all@.len() && same_item(r@[j], #[trigger] all@[i]),
        forall|n: Seq<char>| names_of(r@).contains(n) <==> exists|i: int| 0 <= i < all@.len() && (#[trigger] all@[i]).name@ == n
            && all@[i].rarity == rarity && !owned@.contains(n),
{
    let mut out: Vec<EquipmentItem> = Vec::new();
    let mut k: usize = 0;
    while k < all.len()
        invariant
            names_of(all@).no_duplicates(),
            k <= all@.len(),
            names_of(out@).no_duplicates(),
            forall|j: int| 0 <= j < out@.len() ==> (#[trigger] out@[j]).rarity == rarity && !owned@.contains(out@[j].name@)
                && exists|i: int| 0 <= i < all@.len() && same_item(out@[j], #[trigger] all@[i]),
            forall|n: Seq<char>| names_of(out@).contains(n) <==> exists|i: int| 0 <= i < k && (#[trigger] all@[i]).name@ == n
                && all@[i].rarity == rarity && !owned@.contains(n),
        decreases all@.len() - k,
    {
        let item = &all[k];
        let ghost before = out@;
        if item.rarity == rarity && !owned.contains(item.name.as_str()) {
            let copy = item.duplicate();
            out.push(copy);
            proof {
                assert(names_of(out@) =~= names_of(before).push(copy.name@));
                assert(names_of(all@)[k as int] == item.name@);
                if names_of(before).contains(copy.name@) {
                    let i = choose|i: int| 0 <= i < k && (#[trigger] all@[i]).name@ == copy.name@ && all@[i].rarity == rarity
                        && !owned@.contains(copy.name@);
                    assert(names_of(all@)[i] == names_of(all@)[k as int]);
                }
                assert forall|a: int, b: int| 0 <= a < names_of(out@).len() && 0 <= b < names_of(out@).len() && a != b
                    implies names_of(out@)[a] != names_of(out@)[b] by {
                    if a == before.len() {
                        assert(names_of(before).contains(names_of(out@)[b]));
                    } else if b == before.len() {
                        assert(names_of(before).contains(names_of(out@)[a]));
                    }
                }
                assert forall|j: int| 0 <= j < out@.len() implies (#[trigger] out@[j]).rarity == rarity && !owned@.contains(out@[j].name@)
                    && exists|i: int| 0 <= i < all@.len() && same_item(out@[j], #[trigger] all@[i]) by {
                    if j == before.len() {
                        assert(same_item(out@[j], all@[k as int]));
                    } else {
                        assert(out@[j] == before[j]);
                    }
                }
                assert forall|n: Seq<char>| names_of(out@).contains(n) <==> exists|i: int| 0 <= i < k + 1 && (#[trigger] all@[i]).name@ == n
                    && all@[i].rarity == rarity && !owned@.contains(n) by {
                    if n == copy.name@ {
                        assert(names_of(out@)[before.len() as int] == n);
                    }
                    if names_of(before).contains(n) {
                        let j = choose|j: int| 0 <= j < names_of(before).len() && names_of(before)[j] == n;
                        assert(names_of(out@)[j] == n);
                    }
                    if names_of(out@).contains(n) && n != copy.name@ {
                        let j = choose|j: int| 0 <= j < names_of(out@).len() && names_of(out@)[j] == n;
                        assert(names_of(before)[j] == n);
                    }
                }
            }
        } else {
            proof {
                assert forall|n: Seq<char>| names_of(out@).contains(n) <==> exists|i: int| 0 <= i < k + 1 && (#[trigger] all@[i]).name@ == n
                    && all@[i].rarity == rarity && !owned@.contains(n) by {
                    if exists|i: int| 0 <= i < k + 1 && (#[trigger] all@[i]).name@ == n && all@[i].rarity == rarity && !owned@.contains(n) {
                        let i = choose|i: int| 0 <= i < k + 1 && (#[trigger] all@[i]).name@ == n && all@[i].rarity == rarity
                            && !owned@.contains(n);
                        if i == k {
                            assert(false);
                        }
                    }
                }
            }
        }
        k = k + 1;
    }
    out
}

/// `SliceRandom::choose_multiple` of rand on a list of indices: `amount`
/// of them (all when there are fewer), picked at random without repetition.
/// The contract claims what holds of every pick: how many come out, that
/// each is one of `indices`, and that distinct indices give distinct picks.
/// Which ones, and in which order, is left unsaid.
#[verifier::external_body]
fn choose_multiple_indices(indices: &[usize], amount: usize, rng: &mut StdRng) -> (r: Vec<usize>)
    ensures
        r@.len() == min_int(amount as int, indices@.len() as int),
        forall|k: int| 0 <= k < r@.len() ==> indices@.contains(#[trigger] r@[k]),
        indices@.no_duplicates() ==> r@.no_duplicates(),
{
    indices.choose_multiple(rng, amount).cloned().collect()
}

/// Whether `item` is a copy of some item of `pool`.
pub open spec fn in_pool(item: EquipmentItem, pool: Seq<EquipmentItem>) -> bool {
    exists|j: int| 0 <= j < pool.len() && same_item(item, #[trigger] pool[j])
}

/// Appends `amount` items of `pool` (all when there are fewer) picked at
/// random without repetition.
fn pick_from(pool: &Vec<EquipmentItem>, amount: usize, rng: &mut StdRng, out: &mut Vec<EquipmentItem>)
    requires
        names_of(pool@).no_duplicates(),
    ensures
        final(out)@.len() == old(out)@.len() + min_int(amount as int, pool@.len() as int),
        forall|k: int| 0 <= k < old(out)@.len() ==> #[trigger] final(out)@[k] == old(out)@[k],
        forall|k: int| old(out)@.len() <= k < final(out)@.len() ==> in_pool(#[trigger] final(out)@[k], pool@),
        forall|a: int, b: int| old(out)@.len() <= a < final(out)@.len() && old(out)@.len() <= b < final(out)@.len() && a != b ==> (
        #[trigger] final(out)@[a]).name@ != (#[trigger] final(out)@[b]).name@,
{
    let mut indices: Vec<usize> = Vec::new();
    let mut i: usize = 0;
    while i < pool.len()
        invariant
            i <= pool@.len(),
            indices@.len() == i,
            forall|j: int| 0 <= j < i ==> #[trigger] indices@[j] == j,
        decreases pool@.len() - i,
    {
        indices.push(i);
        i = i + 1;
    }
    let picks = choose_multiple_indices(indices.as_slice(), amount, rng);
    let ghost start = out@.len();
    let ghost first = out@;
    let mut k: usize = 0;
    while k < picks.len()
        invariant
            names_of(pool@).no_duplicates(),
            indices@.len() == pool@.len(),
            forall|j: int| 0 <= j < indices@.len() ==> #[trigger] indices@[j] == j,
            forall|j: int| 0 <= j < picks@.len() ==> indices@.contains(#[trigger] picks@[j]),
            picks@.no_duplicates(),
            k <= picks@.len(),
            out@.len() == start + k,
            forall|j: int| 0 <= j < start ==> #[trigger] out@[j] == first[j],
            forall|j: int| 0 <= j < k ==> picks@[j] < pool@.len() && same_item(#[trigger] out@[start + j], pool@[picks@[j] as int]),
        decreases picks@.len() - k,
    {
        let p = picks[k];
        assert(indices@.contains(picks@[k as int]));
        out.push(pool[p].duplicate());
        k = k + 1;
    }
    proof {
        assert forall|a: int, b: int| start <= a < out@.len() && start <= b < out@.len() && a != b implies (
        #[trigger] out@[a]).name@ != (#[trigger] out@[b]).name@ by {
            let pa = picks@[a - start];
            let pb = picks@[b - start];
            assert(same_item(out@[start + (a - start)], pool@[pa as int]));
            assert(same_item(out@[start + (b - start)], pool@[pb as int]));
            assert(names_of(pool@)[pa as int] != names_of(pool@)[pb as int]);
        }
        assert forall|k: int| start <= k < out@.len() implies in_pool(#[trigger] out@[k], pool@) by {
            let j = picks@[k - start] as int;
            assert(out@[start + (k - start)] == out@[k]);
            assert(same_item(out@[k], pool@[j]));
            assert(0 <= j < pool@.len());
        }
    }
}

/// `v` in reverse order.
fn reversed(v: Vec<EquipmentItem>) -> (r: Vec<EquipmentItem>)
    ensures
        r@.len() == v@.len(),
        forall|k: int| 0 <= k < r@.len() ==> #[trigger] r@[k] == v@[v@.len() - 1 - k],
{
    let ghost original = v@;
    let mut rest = v;
    let mut out: Vec<EquipmentItem> = Vec::new();
    while rest.len() > 0
        invariant
            rest@ == original.take(original.len() - out@.len()),
            out@.len() <= original.len(),
            forall|k: int| 0 <= k < out@.len() ==> #[trigger] out@[k] == original[original.len() - 1 - k],
        decreases rest@.len(),
    {
        let ghost n = out@.len();
        match rest.pop() {
            Some(x) => {
                out.push(x);
            },
            None => {},
        }
        assert(rest@ =~= original.take(original.len() - out@.len()));
    }
    out
}

/// Hands out reward items the player does not own yet, as asked by
/// `requests`: rare ones first as far as stock allows, what rare stock
/// cannot cover from uncommon, what uncommon cannot cover from common.
/// Common items come first in the result, then uncommon, then rare ones;
/// within a rarity they are picked at random, each at most once.
pub fn get_random_items(
    equipment: &EquipmentResource,
    progression: &ProgressionComponent,
    requests: Vec<(EquipmentRarity, u32)>,
    rng: &mut StdRng,
) -> (r: Vec<EquipmentItem>)
    requires
        equipment.wf(),
        request_count(requests@, EquipmentRarity::Rare) <= u32::MAX,
        request_count(requests@, EquipmentRarity::Uncommon) <= u32::MAX,
        request_count(requests@, EquipmentRarity::Common) <= u32::MAX,
        available_names(equipment@, progression.state.items@, EquipmentRarity::Rare).len() <= u32::MAX,
        available_names(equipment@, progression.state.items@, EquipmentRarity::Uncommon).len() <= u32::MAX,
        available_names(equipment@, progression.state.items@, EquipmentRarity::Common).len() <= u32::MAX,
        downgrade_fits(
            request_count(requests@, EquipmentRarity::Rare),
            request_count(requests@, EquipmentRarity::Uncommon),
            request_count(requests@, EquipmentRarity::Common),
            available_names(equipment@, progression.state.items@, EquipmentRarity::Rare).len() as int,
            available_names(equipment@, progression.state.items@, EquipmentRarity::Uncommon).len() as int,
            available_names(equipment@, progression.state.items@, EquipmentRarity::Common).len() as int,
        ),
        downgrade_total_fits(
            request_count(requests@, EquipmentRarity::Rare),
            request_count(requests@, EquipmentRarity::Uncommon),
            request_count(requests@, EquipmentRarity::Common),
            available_names(equipment@, progression.state.items@, EquipmentRarity::Rare).len() as int,
            available_names(equipment@, progression.state.items@, EquipmentRarity::Uncommon).len() as int,
            available_names(equipment@, progression.state.items@, EquipmentRarity::Common).len() as int,
        ),
    ensures
        ({
            let counts = spec_downgrade(
                request_count(requests@, EquipmentRarity::Rare),
                request_count(requests@, EquipmentRarity::Uncommon),
                request_count(requests@, EquipmentRarity::Common),
                available_names(equipment@, progression.state.items@, EquipmentRarity::Rare).len() as int,
                available_names(equipment@, progression.state.items@, EquipmentRarity::Uncommon).len() as int,
                available_names(equipment@, progression.state.items@, EquipmentRarity::Common).len() as int,
            );
            &&& r@.len() == counts.0 + counts.1 + counts.2
            &&& forall|k: int| 0 <= k < counts.2 ==> (#[trigger] r@[k]).rarity == EquipmentRarity::Common
            &&& forall|k: int| counts.2 <= k < counts.2 + counts.1 ==> (#[trigger] r@[k]).rarity == EquipmentRarity::Uncommon
            &&& forall|k: int| counts.2 + counts.1 <= k < r@.len() ==> (#[trigger] r@[k]).rarity == EquipmentRarity::Rare
        }),
        forall|k: int| 0 <= k < r@.len() ==> equipment@.contains_key((#[trigger] r@[k]).name@) && same_item(r@[k], equipment@[r@[k].name@])
            && !progression.state.items@.contains(r@[k].name@),
        forall|a: int, b: int| 0 <= a < r@.len() && 0 <= b < r@.len() && a != b ==> (#[trigger] r@[a]).name@ != (#[trigger] r@[b]).name@,
{
    let owned = &progression.state.items;
    let all = equipment.all();
    assert(names_of(all@).no_duplicates()) by {
        assert forall|i: int, j: int| 0 <= i < names_of(all@).len() && 0 <= j < names_of(all@).len() && i != j implies names_of(all@)[i]
            != names_of(all@)[j] by {
            assert(all@[i].name@ != all@[j].name@);
        }
    }
    let rare = available_of(&all, owned, EquipmentRarity::Rare);
    let uncommon = available_of(&all, owned, EquipmentRarity::Uncommon);
    let common = available_of(&all, owned, EquipmentRarity::Common);
    proof {
        lemma_pool_is_available(equipment@, owned@, all@, rare@, EquipmentRarity::Rare);
        lemma_pool_is_available(equipment@, owned@, all@, uncommon@, EquipmentRarity::Uncommon);
        lemma_pool_is_available(equipment@, owned@, all@, common@, EquipmentRarity::Common);
    }
    let rare_request_count = requested(&requests, EquipmentRarity::Rare);
    let uncommon_request_count = requested(&requests, EquipmentRarity::Uncommon);
    let common_request_count = requested(&requests, EquipmentRarity::Common);
    let (rare_count, uncommon_count, common_count) = downgrade_counts(
        rare_request_count,
        uncommon_request_count,
        common_request_count,
        rare.len() as u32,
        uncommon.len() as u32,
        common.len() as u32,
    );
    let mut chosen: Vec<EquipmentItem> = Vec::new();
    pick_from(&rare, rare_count as usize, rng, &mut chosen);
    let ghost after_rare = chosen@;
    pick_from(&uncommon, uncommon_count as usize, rng, &mut chosen);
    let ghost after_uncommon = chosen@;
    pick_from(&common, common_count as usize, rng, &mut chosen);
    proof {
        let n_r = rare_count as int;
        let n_u = uncommon_count as int;
        let n_c = common_count as int;
        assert(chosen@.len() == n_r + n_u + n_c);
        assert forall|k: int| 0 <= k < chosen@.len() implies equipment@.contains_key((#[trigger] chosen@[k]).name@) && same_item(
            chosen@[k],
            equipment@[chosen@[k].name@],
        ) && !owned@.contains(chosen@[k].name@) && chosen@[k].rarity == (if k < n_r {
            EquipmentRarity::Rare
        } else if k < n_r + n_u {
            EquipmentRarity::Uncommon
        } else {
            EquipmentRarity::Common
        }) by {
            if k < n_r {
                assert(chosen@[k] == after_uncommon[k]);
                assert(after_uncommon[k] == after_rare[k]);
                let j = choose|j: int| 0 <= j < rare@.len() && same_item(after_rare[k], #[trigger] rare@[j]);
            } else if k < n_r + n_u {
                assert(chosen@[k] == after_uncommon[k]);
                let j = choose|j: int| 0 <= j < uncommon@.len() && same_item(after_uncommon[k], #[trigger] uncommon@[j]);
            } else {
                let j = choose|j: int| 0 <= j < common@.len() && same_item(chosen@[k], #[trigger] common@[j]);
            }
        }
        assert forall|a: int, b: int| 0 <= a < chosen@.len() && 0 <= b < chosen@.len() && a != b implies (#[trigger] chosen@[a]).name@
            != (#[trigger] chosen@[b]).name@ by {
            if a < n_r && b < n_r {
                assert(chosen@[a] == after_uncommon[a] && after_uncommon[a] == after_rare[a]);
                assert(chosen@[b] == after_uncommon[b] && after_uncommon[b] == after_rare[b]);
            } else if n_r <= a < n_r + n_u && n_r <= b < n_r + n_u {
                assert(chosen@[a] == after_uncommon[a]);
                assert(chosen@[b] == after_uncommon[b]);
            } else if a >= n_r + n_u && b >= n_r + n_u {
            } else if chosen@[a].name@ == chosen@[b].name@ {
                assert(chosen@[a].rarity == equipment@[chosen@[a].name@].rarity);
                assert(chosen@[b].rarity == equipment@[chosen@[b].name@].rarity);
            }
        }
    }
    reversed(chosen)
}

/// A pool of available items of one rarity holds exactly the names on offer
/// in that rarity, each once, each as in the catalogue.
proof fn lemma_pool_is_available(
    catalog: Map<Seq<char>, EquipmentItem>,
    owned: Set<Seq<char>>,
    all: Seq<EquipmentItem>,
    pool: Seq<EquipmentItem>,
    rarity: EquipmentRarity,
)
    requires
        forall|name: Seq<char>| catalog.contains_key(name) <==> exists|k: int| 0 <= k < all.len() && (#[trigger] all[k]).name@ == name,
        forall|k: int| 0 <= k < all.len() ==> same_item(#[trigger] all[k], catalog[all[k].name@]),
        names_of(pool).no_duplicates(),
        forall|j: int| 0 <= j < pool.len() ==> (#[trigger] pool[j]).rarity == rarity && !owned.contains(pool[j].name@)
            && exists|i: int| 0 <= i < all.len() && same_item(pool[j], #[trigger] all[i]),
        forall|n: Seq<char>| names_of(pool).contains(n) <==> exists|i: int| 0 <= i < all.len() && (#[trigger] all[i]).name@ == n
            && all[i].rarity == rarity && !owned.contains(n),
    ensures
        pool.len() == available_names(catalog, owned, rarity).len(),
        forall|j: int| 0 <= j < pool.len() ==> catalog.contains_key((#[trigger] pool[j]).name@) && same_item(pool[j], catalog[pool[j].name@])
            && !owned.contains(pool[j].name@) && pool[j].rarity == rarity,
{
    let avail = available_names(catalog, owned, rarity);
    assert forall|n: Seq<char>| avail.contains(n) <==> names_of(pool).to_set().contains(n) by {
        if avail.contains(n) {
            let k = choose|k: int| 0 <= k < all.len() && (#[trigger] all[k]).name@ == n;
            assert(same_item(all[k], catalog[n]));
        }
        if names_of(pool).contains(n) {
            let i = choose|i: int| 0 <= i < all.len() && (#[trigger] all[i]).name@ == n && all[i].rarity == rarity && !owned.contains(n);
            assert(same_item(all[i], catalog[n]));
        }
    }
    assert(avail =~= names_of(pool).to_set());
    names_of(pool).unique_seq_to_set();
    assert forall|j: int| 0 <= j < pool.len() implies catalog.contains_key((#[trigger] pool[j]).name@) && same_item(
        pool[j],
        catalog[pool[j].name@],
    ) && !owned.contains(pool[j].name@) && pool[j].rarity == rarity by {
        let i = choose|i: int| 0 <= i < all.len() && same_item(pool[j], #[trigger] all[i]);
        assert(same_item(all[i], catalog[all[i].name@]));
    }
}

} // verus!
