use rand::rngs::StdRng;
use vstd::prelude::*;

use crate::clash::damage::{Damage, DamageElement, DamageOptions, RolledDamage};
use crate::clash::strength::Strength;

verus! {

/// The map formed by inserting each `(kind, value)` pair in order (a later
/// pair for the same kind replaces an earlier one).
pub open spec fn pairs_map(s: Seq<(DamageElement, u32)>) -> Map<u32, u32>
    decreases s.len(),
{
    if s.len() == 0 {
        Map::empty()
    } else {
        pairs_map(s.drop_last()).insert(s.last().0.bits, s.last().1)
    }
}

/// `(kind bits, value)` pairs with their kinds as damage elements.
pub open spec fn as_elements(s: Seq<(u32, u32)>) -> Seq<(DamageElement, u32)> {
    s.map_values(|p: (u32, u32)| (DamageElement { bits: p.0 }, p.1))
}

/// Whether no two pairs share a kind.
pub open spec fn distinct_kinds(s: Seq<(DamageElement, u32)>) -> bool {
    forall|i: int, j: int| 0 <= i < j < s.len() ==> (#[trigger] s[i]).0.bits != (#[trigger] s[j]).0.bits
}

/// With distinct kinds, the map holds exactly the pairs' kinds, each with
/// its pair's value.
pub proof fn lemma_pairs_map_lookup(s: Seq<(DamageElement, u32)>)
    requires
        distinct_kinds(s),
    ensures
        forall|i: int| 0 <= i < s.len() ==> pairs_map(s).contains_key((#[trigger] s[i]).0.bits) && pairs_map(s)[s[i].0.bits] == s[i].1,
        forall|k: u32| pairs_map(s).contains_key(k) ==> exists|i: int| 0 <= i < s.len() && (#[trigger] s[i]).0.bits == k,
    decreases s.len(),
{
    if s.len() > 0 {
        let t = s.drop_last();
        assert(distinct_kinds(t)) by {
            assert forall|i: int, j: int| 0 <= i < j < t.len() implies (#[trigger] t[i]).0.bits != (#[trigger] t[j]).0.bits by {
                assert(t[i] == s[i] && t[j] == s[j]);
            }
        }
        lemma_pairs_map_lookup(t);
        assert forall|i: int| 0 <= i < s.len() implies pairs_map(s).contains_key((#[trigger] s[i]).0.bits)
            && pairs_map(s)[s[i].0.bits] == s[i].1 by {
            if i < s.len() - 1 {
                assert(t[i] == s[i]);
                assert(s[i].0.bits != s[s.len() - 1].0.bits);
            }
        }
        assert forall|k: u32| pairs_map(s).contains_key(k) implies exists|i: int| 0 <= i < s.len() && (#[trigger] s[i]).0.bits == k by {
            if k != s.last().0.bits {
                assert(pairs_map(s) == pairs_map(t).insert(s.last().0.bits, s.last().1));
                assert(pairs_map(t).contains_key(k));
                let i = choose|i: int| 0 <= i < t.len() && (#[trigger] t[i]).0.bits == k;
                assert(s[i] == t[i]);
            } else {
                assert(s[s.len() - 1].0.bits == k);
            }
        }
    }
}

/// Replacing the value of a pair (kinds distinct) updates that kind in the map.
pub proof fn lemma_pairs_map_update(s: Seq<(DamageElement, u32)>, i: int, v: u32)
    requires
        distinct_kinds(s),
        0 <= i < s.len(),
    ensures
        pairs_map(s.update(i, (s[i].0, v))) == pairs_map(s).insert(s[i].0.bits, v),
    decreases s.len(),
{
    let u = s.update(i, (s[i].0, v));
    if i == s.len() - 1 {
        assert(u.drop_last() == s.drop_last());
        assert(pairs_map(u) =~= pairs_map(s).insert(s[i].0.bits, v));
    } else {
        let t = s.drop_last();
        assert(distinct_kinds(t)) by {
            assert forall|a: int, b: int| 0 <= a < b < t.len() implies (#[trigger] t[a]).0.bits != (#[trigger] t[b]).0.bits by {
                assert(t[a] == s[a] && t[b] == s[b]);
            }
        }
        lemma_pairs_map_update(t, i, v);
        assert(u.drop_last() == t.update(i, (t[i].0, v)));
        assert(s[i].0.bits != s.last().0.bits);
        assert(pairs_map(u) =~= pairs_map(s).insert(s[i].0.bits, v));
    }
}

/// The index of the pair for the kind `bits`, if any.
fn find_kind(held: &Vec<(DamageElement, u32)>, bits: u32) -> (r: Option<usize>)
    ensures
        r matches Some(i) ==> i < held@.len() && held@[i as int].0.bits == bits,
        r is None ==> forall|j: int| 0 <= j < held@.len() ==> (#[trigger] held@[j]).0.bits != bits,
{
    let mut i: usize = 0;
    while i < held.len()
        invariant
            i <= held@.len(),
            forall|j: int| 0 <= j < i ==> (#[trigger] held@[j]).0.bits != bits,
        decreases held@.len() - i,
    {
        if held[i].0.bits == bits {
            return Some(i);
        }
        i = i + 1;
    }
    None
}

/// Resistance strength against each kind of damage other than physical.
#[derive(Clone)]
pub struct Resistances {
    resistances: Vec<(DamageElement, u32)>,
}

impl View for Resistances {
    type V = Map<u32, u32>;

    closed spec fn view(&self) -> Map<u32, u32> {
        pairs_map(self.resistances@)
    }
}

impl Resistances {
    /// Whether the held pairs name each kind at most once.
    pub closed spec fn wf(&self) -> bool {
        distinct_kinds(self.resistances@)
    }

    /// No resistance.
    pub fn empty() -> (r: Resistances)
        ensures
            r.wf(),
            r@ == Map::<u32, u32>::empty(),
    {
        Resistances { resistances: Vec::new() }
    }

    /// The resistances listed in `resistances`; a later entry for the same
    /// kind replaces an earlier one.
    pub fn init(resistances: &[(u32, u32)]) -> (r: Resistances)
        ensures
            r.wf(),
            r@ == pairs_map(as_elements(resistances@)),
    {
        let ghost es = as_elements(resistances@);
        let mut held: Vec<(DamageElement, u32)> = Vec::new();
        let mut k: usize = 0;
        while k < resistances.len()
            invariant
                es == as_elements(resistances@),
                k <= resistances@.len(),
                distinct_kinds(held@),
                pairs_map(held@) == pairs_map(es.take(k as int)),
            decreases resistances@.len() - k,
        {
            let (kind_bits, value) = resistances[k];
            let kind = DamageElement::from_bits(kind_bits);
            assert(es[k as int] == (kind, value));
            let found = find_kind(&held, kind.bits);
            assert(es.take(k + 1).drop_last() == es.take(k as int));
            if let Some(i) = found {
                let ghost before = held@;
                held.set(i, (held[i].0, value));
                proof {
                    lemma_pairs_map_update(before, i as int, value);
                    assert(held@ == before.update(i as int, (before[i as int].0, value)));
                    assert forall|a: int, b: int| 0 <= a < b < held@.len() implies (#[trigger] held@[a]).0.bits
                        != (#[trigger] held@[b]).0.bits by {
                        assert(held@[a].0 == before[a].0 && held@[b].0 == before[b].0);
                    }
                }
            } else {
                let ghost before = held@;
                held.push((kind, value));
                proof {
                    assert(held@.drop_last() == before);
                    assert forall|a: int, b: int| 0 <= a < b < held@.len() implies (#[trigger] held@[a]).0.bits
                        != (#[trigger] held@[b]).0.bits by {
                        if b == held@.len() - 1 {
                            assert(held@[a] == before[a]);
                        } else {
                            assert(held@[a] == before[a] && held@[b] == before[b]);
                        }
                    }
                }
            }
            k = k + 1;
        }
        assert(es.take(k as int) == es);
        Resistances { resistances: held }
    }

    /// The resistance against `kind`, `0` when none is held.
    pub open spec fn spec_get(&self, kind: u32) -> u32 {
        if self@.contains_key(kind) {
            self@[kind]
        } else {
            0
        }
    }

    /// The resistance against `kind`, `0` when none is held.
    pub fn get(&self, kind: DamageElement) -> (r: u32)
        requires
            self.wf(),
        ensures
            r == self.spec_get(kind.bits),
    {
        proof {
            lemma_pairs_map_lookup(self.resistances@);
        }
        match find_kind(&self.resistances, kind.bits) {
            Some(i) => {
                assert(self.resistances@[i as int].0.bits == kind.bits);
                self.resistances[i].1
            },
            None => {
                assert(!self@.contains_key(kind.bits));
                0
            },
        }
    }

    /// Every held resistance as a `(kind, strength)` pair, each kind once.
    pub fn all(&self) -> (r: Vec<(DamageElement, u32)>)
        requires
            self.wf(),
        ensures
            distinct_kinds(r@),
            pairs_map(r@) == self@,
    {
        let mut copy: Vec<(DamageElement, u32)> = Vec::new();
        let mut i: usize = 0;
        while i < self.resistances.len()
            invariant
                i <= self.resistances@.len(),
                copy@ == self.resistances@.take(i as int),
            decreases self.resistances@.len() - i,
        {
            copy.push(self.resistances[i]);
            i = i + 1;
            assert(copy@ =~= self.resistances@.take(i as int));
        }
        assert(copy@ =~= self.resistances@);
        copy
    }
}

/// `to_apply` taken out of `pool`: what the pool covers and what remains.
pub fn apply_with_remain(to_apply: u32, pool: u32) -> (r: (u32, u32))
    ensures
        r.0 == if to_apply <= pool {
            to_apply
        } else {
            pool
        },
        r.0 + r.1 == to_apply,
{
    if to_apply <= pool {
        (to_apply, 0)
    } else {
        (pool, to_apply - pool)
    }
}

/// What remains of `v` once `pool` is taken out (never below zero).
pub open spec fn remain(v: int, pool: int) -> int {
    if v <= pool {
        0
    } else {
        v - pool
    }
}

/// The least of `a` and `b`.
pub open spec fn min(a: int, b: int) -> int {
    if a <= b {
        a
    } else {
        b
    }
}

/// A character's defenses: dodge charges, armor, resistances, a pool of
/// absorbed damage, and health.
#[derive(Clone)]
pub struct Defenses {
    pub dodge: u32,
    pub max_dodge: u32,
    pub armor: u32,
    pub resistances: Resistances,
    pub absorb: u32,
    pub health: u32,
    pub max_health: u32,
}

/// The strength of the soak roll against the kind `e`: armor (and any
/// additional armor) against physical damage, the resistance otherwise.
pub open spec fn soak_strength(d: Defenses, additional_armor: u32, e: u32) -> int {
    if e == DamageElement::PHYSICAL {
        d.armor + additional_armor
    } else {
        d.resistances.spec_get(e) as int
    }
}

/// Soaking the kinds `comps[j..]` of a hit: each kind soaks its roll, capped
/// at `per_kind`, out of the remaining damage. Returns what armor soaked,
/// what resistances soaked and the damage left.
pub open spec fn spec_soak(comps: Seq<u32>, j: int, rolls: Seq<u32>, per_kind: int, armor_soaked: int, resist_soaked: int, left: int) -> (int, int, int)
    decreases comps.len() - j,
{
    if j >= comps.len() || j < 0 {
        (armor_soaked, resist_soaked, left)
    } else {
        let amount = min(rolls[j] as int, per_kind);
        if comps[j] == DamageElement::PHYSICAL {
            spec_soak(comps, j + 1, rolls, per_kind, armor_soaked + amount, resist_soaked, remain(left, amount))
        } else {
            spec_soak(comps, j + 1, rolls, per_kind, armor_soaked, resist_soaked + amount, remain(left, amount))
        }
    }
}

/// The damage each kind soaks at most: an equal share of the damage.
pub open spec fn per_kind(damage: Damage, damage_value: int) -> int {
    if damage.element.spec_components().len() == 0 {
        0
    } else {
        damage_value / (damage.element.spec_components().len() as int)
    }
}

/// What the defenses absorb of a hit given its rolls: the dodge roll, the
/// armor and resistance soaks, and the damage that gets through.
pub open spec fn spec_mitigation(d: Defenses, damage: Damage, damage_value: int, dodge_value: int, soak_rolls: Seq<u32>) -> (int, int, int, int) {
    if damage.options.bits & DamageOptions::PIERCE_DEFENSES == DamageOptions::PIERCE_DEFENSES {
        (0, 0, 0, damage_value)
    } else {
        let after_dodge = remain(damage_value, dodge_value);
        let soak = spec_soak(
            damage.element.spec_components(),
            0,
            soak_rolls,
            per_kind(damage, after_dodge),
            0,
            0,
            after_dodge,
        );
        (dodge_value, soak.0, soak.1, soak.2)
    }
}

impl Defenses {
    /// Whether the defenses' resistances are well formed.
    pub open spec fn wf(&self) -> bool {
        self.resistances.wf()
    }

    /// Defenses with the given dodge, armor, absorb and health (the maxima
    /// set to the starting values) and no resistance.
    pub fn init(dodge: u32, armor: u32, absorb: u32, health: u32) -> (r: Defenses)
        ensures
            r.wf(),
            r.dodge == dodge && r.max_dodge == dodge,
            r.armor == armor,
            r.absorb == absorb,
            r.health == health && r.max_health == health,
            r.resistances@ == Map::<u32, u32>::empty(),
    {
        Defenses {
            dodge,
            max_dodge: dodge,
            armor,
            absorb,
            health,
            max_health: health,
            resistances: Resistances::empty(),
        }
    }

    /// Defenses with only `health`.
    pub fn just_health(health: u32) -> (r: Defenses)
        ensures
            r.wf(),
            r.dodge == 0 && r.max_dodge == 0 && r.armor == 0 && r.absorb == 0,
            r.health == health && r.max_health == health,
            r.resistances@ == Map::<u32, u32>::empty(),
    {
        Defenses {
            dodge: 0,
            max_dodge: 0,
            armor: 0,
            absorb: 0,
            health,
            max_health: health,
            resistances: Resistances::empty(),
        }
    }

    /// These defenses with `resistances` in place of their resistances.
    pub fn with_resistances(self, resistances: Resistances) -> (r: Defenses)
        ensures
            r.dodge == self.dodge && r.max_dodge == self.max_dodge && r.armor == self.armor,
            r.absorb == self.absorb && r.health == self.health && r.max_health == self.max_health,
            r.resistances == resistances,
    {
        let mut d = self;
        d.resistances = resistances;
        d
    }

    /// The dodge charges a hit of `damage` burns: as many as it has dice.
    pub open spec fn dodge_used(&self, damage: Damage) -> int {
        min(self.dodge as int, damage.amount.dice as int)
    }

    /// Whether every roll this hit needs can be made without overflow.
    pub open spec fn can_take(&self, damage: Damage, additional_armor: u32) -> bool {
        &&& self.wf()
        &&& damage.amount.can_roll()
        &&& (self.armor + additional_armor) * 2 <= u32::MAX
        &&& forall|k: u32| self.resistances@.contains_key(k) ==> #[trigger] self.resistances@[k] * 2 <= u32::MAX
    }

    /// Whether the given rolls are possible for a hit of `damage`: the damage
    /// roll for its dice, the dodge roll for the dodge it burns, and one soak
    /// roll per kind of damage for that kind's soak strength (no dodge or soak
    /// roll when the hit pierces defenses).
    pub open spec fn valid_rolls(&self, damage: Damage, additional_armor: u32, damage_value: int, dodge_value: int, soak_rolls: Seq<u32>) -> bool {
        &&& damage.amount.possible_roll(damage_value)
        &&& if damage.options.bits & DamageOptions::PIERCE_DEFENSES == DamageOptions::PIERCE_DEFENSES {
            dodge_value == 0 && soak_rolls.len() == 0
        } else {
            &&& Strength { dice: self.dodge_used(damage) as u32 }.possible_roll(dodge_value)
            &&& soak_rolls.len() == damage.element.spec_components().len()
            &&& forall|j: int|
                0 <= j < soak_rolls.len() ==> (Strength {
                    dice: soak_strength(*self, additional_armor, damage.element.spec_components()[j]) as u32,
                }).possible_roll(#[trigger] soak_rolls[j] as int)
        }
    }

    /// Applies a hit of `damage` whose rolls came out as given. Dodge burns up
    /// to one charge per die and its roll comes off first; each kind of the
    /// hit then soaks an equal share at most (armor for physical, resistance
    /// otherwise), unless the hit pierces defenses. What gets through drains
    /// the absorb pool first, then health (never below zero).
    pub fn apply_damage_rolled(
        &mut self,
        damage: Damage,
        additional_armor: u32,
        damage_value: u32,
        dodge_value: u32,
        soak_rolls: &Vec<u32>,
    ) -> (r: RolledDamage)
        requires
            old(self).can_take(damage, additional_armor),
            old(self).valid_rolls(damage, additional_armor, damage_value as int, dodge_value as int, soak_rolls@),
        ensures
            ({
                let m = spec_mitigation(*old(self), damage, damage_value as int, dodge_value as int, soak_rolls@);
                &&& r.absorbed_by_dodge == m.0
                &&& r.absorbed_by_armor == m.1
                &&& r.absorbed_by_resist == m.2
                &&& r.amount == m.3
                &&& r.options == damage.options
                &&& final(self).dodge == if damage.options.bits & DamageOptions::PIERCE_DEFENSES
                    == DamageOptions::PIERCE_DEFENSES {
                    old(self).dodge as int
                } else {
                    old(self).dodge - old(self).dodge_used(damage)
                }
                &&& final(self).absorb == old(self).absorb - min(m.3, old(self).absorb as int)
                &&& final(self).health == old(self).health - min(
                    remain(m.3, old(self).absorb as int),
                    old(self).health as int,
                )
            }),
            final(self).max_dodge == old(self).max_dodge,
            final(self).armor == old(self).armor,
            final(self).max_health == old(self).max_health,
            final(self).resistances == old(self).resistances,
    {
        let (absorbed_by_dodge, absorbed_by_armor, absorbed_by_resist, damage_value) = if !damage.options.contains(
            DamageOptions::from_bits(DamageOptions::PIERCE_DEFENSES),
        ) {
            // Dodge first, burning charges up to matching dice
            let dodge_to_apply = if self.dodge < damage.dice() {
                self.dodge
            } else {
                damage.dice()
            };
            self.dodge = self.dodge - dodge_to_apply;
            let (_, damage_value) = apply_with_remain(damage_value, dodge_value);

            // Resistance or armor for each kind of the hit
            let (armor_value, resist_value, damage_value) = self.apply_resistances(
                damage,
                damage_value,
                additional_armor,
                soak_rolls,
            );
            (dodge_value, armor_value, resist_value, damage_value)
        } else {
            (0, 0, 0, damage_value)
        };

        // Report the damage after mitigation
        let total_applied_damage = damage_value;

        // Any absorb is burned first
        let (absorb_damage, damage_value) = apply_with_remain(damage_value, self.absorb);
        self.absorb = self.absorb - absorb_damage;

        // The rest falls to health; overkill is ignored
        let (health_damage, _) = apply_with_remain(damage_value, self.health);
        self.health = self.health - health_damage;

        RolledDamage::init(
            absorbed_by_dodge,
            absorbed_by_armor,
            absorbed_by_resist,
            total_applied_damage,
            &damage.options,
        )
    }

    /// The soaks of each kind of a hit given its soak rolls.
    fn apply_resistances(&self, damage: Damage, damage_value: u32, additional_armor: u32, soak_rolls: &Vec<u32>) -> (r: (u32, u32, u32))
        requires
            soak_rolls@.len() == damage.element.spec_components().len(),
        ensures
            ({
                let s = spec_soak(
                    damage.element.spec_components(),
                    0,
                    soak_rolls@,
                    per_kind(damage, damage_value as int),
                    0,
                    0,
                    damage_value as int,
                );
                r.0 == s.0 && r.1 == s.1 && r.2 == s.2
            }),
    {
        let mut damage_value = damage_value;
        // The damage is shared out evenly between its kinds
        let total_damage_types = damage.element.count();
        let damage_to_soak_per_type = if total_damage_types > 0 {
            damage_value / total_damage_types
        } else {
            0
        };
        let ghost per = per_kind(damage, damage_value as int);
        let ghost start = damage_value as int;
        proof {
            if total_damage_types > 0 {
                vstd::arithmetic::div_mod::lemma_fundamental_div_mod(start, total_damage_types as int);
                assert(total_damage_types * per <= start) by (nonlinear_arith)
                    requires
                        start == total_damage_types * (start / total_damage_types as int) + start % total_damage_types as int,
                        per == start / total_damage_types as int,
                        start % total_damage_types as int >= 0,
                ;
                vstd::arithmetic::div_mod::lemma_mod_bound(start, total_damage_types as int);
                assert(per >= 0) by (nonlinear_arith)
                    requires
                        start >= 0,
                        total_damage_types > 0,
                        per == start / total_damage_types as int,
                ;
            }
        }

        let mut resist_value: u32 = 0;
        let mut armor_value: u32 = 0;

        let components = damage.element.components();
        let ghost comps = damage.element.spec_components();
        let mut j: usize = 0;
        while j < components.len()
            invariant
                components@.len() == comps.len(),
                forall|k: int| 0 <= k < components@.len() ==> (#[trigger] components@[k]).bits == comps[k],
                soak_rolls@.len() == comps.len(),
                comps == damage.element.spec_components(),
                per == damage_to_soak_per_type,
                per == per_kind(damage, start),
                0 <= start <= u32::MAX,
                j <= comps.len(),
                armor_value + resist_value + damage_value == start,
                armor_value + resist_value <= j * per,
                comps.len() * per <= start,
                per >= 0,
                spec_soak(comps, j as int, soak_rolls@, per, armor_value as int, resist_value as int, damage_value as int)
                    == spec_soak(comps, 0, soak_rolls@, per, 0, 0, start),
            decreases comps.len() - j,
        {
            let damage_element = components[j];
            let roll = soak_rolls[j];
            let resistance_amount = if roll < damage_to_soak_per_type {
                roll
            } else {
                damage_to_soak_per_type
            };
            proof {
                assert((j + 1) * per <= comps.len() * per) by (nonlinear_arith)
                    requires
                        j + 1 <= comps.len(),
                        per >= 0,
                ;
                assert(j * per + per == (j + 1) * per) by (nonlinear_arith);
            }
            if damage_element.bits == DamageElement::PHYSICAL {
                armor_value = armor_value + resistance_amount;
            } else {
                resist_value = resist_value + resistance_amount;
            }
            damage_value = apply_with_remain(damage_value, resistance_amount).1;
            j = j + 1;
        }
        (armor_value, resist_value, damage_value)
    }

    /// Takes a hit of `damage`, rolling it (and the defenses against it) with
    /// `rng`; `additional_armor` adds to armor against physical damage for
    /// this hit only.
    pub fn apply_damage_with_additional_armor(&mut self, damage: Damage, additional_armor: u32, rng: &mut StdRng) -> (r: RolledDamage)
        requires
            old(self).can_take(damage, additional_armor),
        ensures
            exists|damage_value: int, dodge_value: int, soak_rolls: Seq<u32>|
                #[trigger] old(self).valid_rolls(damage, additional_armor, damage_value, dodge_value, soak_rolls) && {
                    let m = spec_mitigation(*old(self), damage, damage_value, dodge_value, soak_rolls);
                    &&& r.absorbed_by_dodge == m.0
                    &&& r.absorbed_by_armor == m.1
                    &&& r.absorbed_by_resist == m.2
                    &&& r.amount == m.3
                    &&& final(self).absorb == old(self).absorb - min(m.3, old(self).absorb as int)
                    &&& final(self).health == old(self).health - min(
                        remain(m.3, old(self).absorb as int),
                        old(self).health as int,
                    )
                },
            r.options == damage.options,
            final(self).dodge == if damage.options.bits & DamageOptions::PIERCE_DEFENSES
                == DamageOptions::PIERCE_DEFENSES {
                old(self).dodge as int
            } else {
                old(self).dodge - old(self).dodge_used(damage)
            },
            final(self).max_dodge == old(self).max_dodge,
            final(self).armor == old(self).armor,
            final(self).max_health == old(self).max_health,
            final(self).resistances == old(self).resistances,
    {
        let damage_value = damage.amount.roll(rng);
        let mut dodge_value: u32 = 0;
        let mut soak_rolls: Vec<u32> = Vec::new();
        if !damage.options.contains(DamageOptions::from_bits(DamageOptions::PIERCE_DEFENSES)) {
            let dodge_to_apply = if self.dodge < damage.dice() {
                self.dodge
            } else {
                damage.dice()
            };
            dodge_value = Strength::init(dodge_to_apply).roll(rng);
            let components = damage.element.components();
            let mut j: usize = 0;
            while j < components.len()
                invariant
                    self.can_take(damage, additional_armor),
                    components@.len() == damage.element.spec_components().len(),
                    forall|k: int|
                        0 <= k < components@.len() ==> (#[trigger] components@[k]).bits
                            == damage.element.spec_components()[k],
                    j <= components@.len(),
                    soak_rolls@.len() == j,
                    forall|k: int|
                        0 <= k < j ==> (Strength {
                            dice: soak_strength(*self, additional_armor, damage.element.spec_components()[k]) as u32,
                        }).possible_roll(#[trigger] soak_rolls@[k] as int),
                decreases components@.len() - j,
            {
                let e = components[j];
                let strength = if e.bits == DamageElement::PHYSICAL {
                    self.armor + additional_armor
                } else {
                    proof {
                        if self.resistances@.contains_key(e.bits) {
                            assert(self.resistances@[e.bits] * 2 <= u32::MAX);
                        }
                    }
                    self.resistances.get(e)
                };
                let roll = Strength::init(strength).roll(rng);
                soak_rolls.push(roll);
                j = j + 1;
            }
        }
        let ghost before = *self;
        let r = self.apply_damage_rolled(damage, additional_armor, damage_value, dodge_value, &soak_rolls);
        assert(before.valid_rolls(damage, additional_armor, damage_value as int, dodge_value as int, soak_rolls@));
        r
    }

    /// Takes a hit of `damage`, rolling it with `rng`.
    pub fn apply_damage(&mut self, damage: Damage, rng: &mut StdRng) -> (r: RolledDamage)
        requires
            old(self).can_take(damage, 0),
        ensures
            exists|damage_value: int, dodge_value: int, soak_rolls: Seq<u32>|
                #[trigger] old(self).valid_rolls(damage, 0, damage_value, dodge_value, soak_rolls) && {
                    let m = spec_mitigation(*old(self), damage, damage_value, dodge_value, soak_rolls);
                    &&& r.absorbed_by_dodge == m.0
                    &&& r.absorbed_by_armor == m.1
                    &&& r.absorbed_by_resist == m.2
                    &&& r.amount == m.3
                    &&& final(self).absorb == old(self).absorb - min(m.3, old(self).absorb as int)
                    &&& final(self).health == old(self).health - min(
                        remain(m.3, old(self).absorb as int),
                        old(self).health as int,
                    )
                },
            r.options == damage.options,
            final(self).dodge == if damage.options.bits & DamageOptions::PIERCE_DEFENSES
                == DamageOptions::PIERCE_DEFENSES {
                old(self).dodge as int
            } else {
                old(self).dodge - old(self).dodge_used(damage)
            },
            final(self).max_dodge == old(self).max_dodge,
            final(self).armor == old(self).armor,
            final(self).max_health == old(self).max_health,
            final(self).resistances == old(self).resistances,
    {
        self.apply_damage_with_additional_armor(damage, 0, rng)
    }

    /// Regains `regain` dodge charges, up to the maximum.
    pub fn regain_dodge(&mut self, regain: u32)
        requires
            old(self).dodge + regain <= u32::MAX,
        ensures
            final(self).dodge == min(old(self).dodge + regain, old(self).max_dodge as int),
            final(self).max_dodge == old(self).max_dodge,
            final(self).armor == old(self).armor,
            final(self).absorb == old(self).absorb,
            final(self).health == old(self).health,
            final(self).max_health == old(self).max_health,
            final(self).resistances == old(self).resistances,
    {
        let total = self.dodge + regain;
        self.dodge = if total < self.max_dodge {
            total
        } else {
            self.max_dodge
        };
    }
}

/// Soaking never leaves more damage than there was, nor less than none.
proof fn lemma_soak_left_bounded(
    comps: Seq<u32>,
    j: int,
    rolls: Seq<u32>,
    per_kind: int,
    armor_soaked: int,
    resist_soaked: int,
    left: int,
)
    requires
        per_kind >= 0,
        left >= 0,
    ensures
        0 <= spec_soak(comps, j, rolls, per_kind, armor_soaked, resist_soaked, left).2 <= left,
    decreases comps.len() - j,
{
    if 0 <= j < comps.len() {
        let amount = min(rolls[j] as int, per_kind);
        if comps[j] == DamageElement::PHYSICAL {
            lemma_soak_left_bounded(comps, j + 1, rolls, per_kind, armor_soaked + amount, resist_soaked, remain(left, amount));
        } else {
            lemma_soak_left_bounded(comps, j + 1, rolls, per_kind, armor_soaked, resist_soaked + amount, remain(left, amount));
        }
    }
}

/// Defenses never make a hit worse: the damage that gets through is never
/// more than the damage rolled, and never negative.
pub proof fn lemma_mitigation_bounded(d: Defenses, damage: Damage, damage_value: int, dodge_value: int, soak_rolls: Seq<u32>)
    requires
        damage_value >= 0,
        dodge_value >= 0,
    ensures
        0 <= spec_mitigation(d, damage, damage_value, dodge_value, soak_rolls).3 <= damage_value,
{
    if damage.options.bits & DamageOptions::PIERCE_DEFENSES != DamageOptions::PIERCE_DEFENSES {
        let after_dodge = remain(damage_value, dodge_value);
        let n = damage.element.spec_components().len() as int;
        if n > 0 {
            assert(after_dodge / n >= 0) by (nonlinear_arith)
                requires
                    after_dodge >= 0,
                    n > 0,
            ;
        }
        lemma_soak_left_bounded(damage.element.spec_components(), 0, soak_rolls, per_kind(damage, after_dodge), 0, 0, after_dodge);
    }
}

} // verus!
