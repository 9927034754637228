use vstd::prelude::*;

use crate::assoc::{distinct_keys, has_key, key_map, lemma_key_map_index, lemma_key_map_push, lemma_key_map_update};
use crate::clash::skills::{adrenaline_gain, spec_adrenaline_gain, AmmoInfo, AmmoKind, SkillInfo};
use crate::text::{push_line, str_equal, string_views};

verus! {

/// Amounts per kind of ammunition, each kind at most once.
#[derive(Clone, Debug)]
pub struct AmmoTable {
    entries: Vec<(AmmoKind, u32)>,
}

impl View for AmmoTable {
    type V = Map<AmmoKind, u32>;

    closed spec fn view(&self) -> Map<AmmoKind, u32> {
        key_map(self.entries@)
    }
}

impl AmmoTable {
    /// Whether each kind is held at most once.
    pub closed spec fn wf(&self) -> bool {
        distinct_keys(self.entries@)
    }

    /// No amount for any kind.
    pub fn new() -> (r: AmmoTable)
        ensures
            r.wf(),
            r@ == Map::<AmmoKind, u32>::empty(),
    {
        let r = AmmoTable { entries: Vec::new() };
        assert(r@ =~= Map::<AmmoKind, u32>::empty());
        r
    }

    fn find(&self, kind: AmmoKind) -> (r: Option<usize>)
        requires
            self.wf(),
        ensures
            r matches Some(i) ==> i < self.entries@.len() && self.entries@[i as int].0 == kind && self@.contains_key(kind)
                && self@[kind] == self.entries@[i as int].1,
            r is None ==> !self@.contains_key(kind),
    {
        let mut i: usize = 0;
        while i < self.entries.len()
            invariant
                self.wf(),
                i <= self.entries@.len(),
                forall|j: int| 0 <= j < i ==> (#[trigger] self.entries@[j]).0 != kind,
            decreases self.entries@.len() - i,
        {
            if self.entries[i].0 == kind {
                proof {
                    lemma_key_map_index(self.entries@, i as int);
                }
                return Some(i);
            }
            i = i + 1;
        }
        None
    }

    /// The amount of `kind`, if one is held.
    pub fn get(&self, kind: AmmoKind) -> (r: Option<u32>)
        requires
            self.wf(),
        ensures
            r == (if self@.contains_key(kind) {
                Some(self@[kind])
            } else {
                None
            }),
    {
        match self.find(kind) {
            Some(i) => Some(self.entries[i].1),
            None => None,
        }
    }

    /// Sets the amount of `kind` to `amount`.
    pub fn set(&mut self, kind: AmmoKind, amount: u32)
        requires
            old(self).wf(),
        ensures
            final(self).wf(),
            final(self)@ == old(self)@.insert(kind, amount),
    {
        let ghost before = self.entries@;
        match self.find(kind) {
            Some(i) => {
                self.entries.set(i, (kind, amount));
                proof {
                    lemma_key_map_update(before, i as int, amount);
                    assert(self.entries@ =~= before.update(i as int, (before[i as int].0, amount)));
                }
            },
            None => {
                self.entries.push((kind, amount));
                proof {
                    lemma_key_map_push(before, kind, amount);
                }
            },
        }
    }
}

/// How many more uses ammunition allows: the current amount over the amount
/// each use takes (none when the kind is not held).
pub open spec fn spec_ammo_uses(current: Option<u32>, usage: u32) -> u32 {
    match current {
        Some(c) => if c >= usage {
            (c / usage) as u32
        } else {
            0
        },
        None => 0,
    }
}

/// The uses a held amount allows are the whole number of uses it covers:
/// they take no more than is held, and one more use would take more than is
/// held. Nothing held allows no use.
pub proof fn lemma_ammo_uses_fit(current: u32, usage: u32)
    requires
        usage > 0,
    ensures
        spec_ammo_uses(Some(current), usage) * usage <= current,
        current < (spec_ammo_uses(Some(current), usage) + 1) * usage,
        spec_ammo_uses(None, usage) == 0,
{
    let c = current as int;
    let u = usage as int;
    vstd::arithmetic::div_mod::lemma_fundamental_div_mod(c, u);
    vstd::arithmetic::div_mod::lemma_mod_bound(c, u);
    vstd::arithmetic::div_mod::lemma_div_pos_is_pos(c, u);
    let q = c / u;
    let m = c % u;
    let n = spec_ammo_uses(Some(current), usage) as int;
    if c >= u {
        assert(n == q);
    } else {
        assert(n == 0);
        assert(q == 0) by (nonlinear_arith)
            requires
                c == u * q + m,
                0 <= m < u,
                0 <= c < u,
        ;
    }
    assert(n * u <= c) by (nonlinear_arith)
        requires
            c == u * n + m,
            0 <= m,
    ;
    assert(c < (n + 1) * u) by (nonlinear_arith)
        requires
            c == u * n + m,
            m < u,
    ;
}

/// The smallest of the limits that apply.
pub open spec fn spec_min_limit(a: Option<u32>, b: Option<u32>) -> Option<u32> {
    match (a, b) {
        (Some(x), Some(y)) => Some(if x < y {
            x
        } else {
            y
        }),
        (Some(x), None) => Some(x),
        (None, y) => y,
    }
}

/// How many uses of a skill the resources allow, given the limits that
/// ammunition, exhaustion and focus each set (`None` for no limit): the
/// smallest of them, `None` when none applies.
pub fn remaining_usages(ammo: Option<u32>, exhaustion: Option<u32>, focus: Option<u32>) -> (r: Option<u32>)
    ensures
        r == spec_min_limit(spec_min_limit(ammo, exhaustion), focus),
{
    let mut best: Option<u32> = None;
    let usages = [ammo, exhaustion, focus];
    let mut k: usize = 0;
    while k < 3
        invariant
            usages@ == seq![ammo, exhaustion, focus],
            k <= 3,
            k == 0 ==> best is None,
            k == 1 ==> best == ammo,
            k == 2 ==> best == spec_min_limit(ammo, exhaustion),
            k == 3 ==> best == spec_min_limit(spec_min_limit(ammo, exhaustion), focus),
        decreases 3 - k,
    {
        if let Some(u) = usages[k] {
            best = match best {
                Some(b) => Some(
                    if b < u {
                        b
                    } else {
                        u
                    },
                ),
                None => Some(u),
            };
        }
        k = k + 1;
    }
    best
}

/// Whether a skill can be used, or which resource it lacks.
#[derive(Clone, Copy, Debug, PartialEq, Eq, Structural)]
pub enum UsableResults {
    Usable,
    LacksAmmo,
    Exhaustion,
    LacksFocus,
}

/// Whether a skill can be used given the uses focus, exhaustion and
/// ammunition each allow (`None` for no limit); lacking focus is reported
/// first, then exhaustion, then ammunition.
pub fn usable_result(focus: Option<u32>, exhaustion: Option<u32>, ammo: Option<u32>) -> (r: UsableResults)
    ensures
        r == if focus == Some(0u32) {
            UsableResults::LacksFocus
        } else if exhaustion == Some(0u32) {
            UsableResults::Exhaustion
        } else if ammo == Some(0u32) {
            UsableResults::LacksAmmo
        } else {
            UsableResults::Usable
        },
{
    if focus == Some(0) {
        return UsableResults::LacksFocus;
    }
    if exhaustion == Some(0) {
        return UsableResults::Exhaustion;
    }
    if ammo == Some(0) {
        return UsableResults::LacksAmmo;
    }
    UsableResults::Usable
}

/// The cooldowns of a character's skills, by skill name, each at most once.
#[derive(Clone, Debug)]
pub struct Cooldowns {
    entries: Vec<(String, u32)>,
}

/// Cooldown entries keyed by their names' text.
pub open spec fn named_cooldowns(s: Seq<(String, u32)>) -> Seq<(Seq<char>, u32)> {
    s.map_values(|e: (String, u32)| (e.0@, e.1))
}

impl View for Cooldowns {
    type V = Map<Seq<char>, u32>;

    closed spec fn view(&self) -> Map<Seq<char>, u32> {
        key_map(named_cooldowns(self.entries@))
    }
}

impl Cooldowns {
    /// Whether each skill name is held at most once.
    pub closed spec fn wf(&self) -> bool {
        distinct_keys(named_cooldowns(self.entries@))
    }

    /// No cooldown.
    pub fn new() -> (r: Cooldowns)
        ensures
            r.wf(),
            r@ == Map::<Seq<char>, u32>::empty(),
    {
        let r = Cooldowns { entries: Vec::new() };
        assert(r@ =~= Map::<Seq<char>, u32>::empty());
        r
    }

    fn find(&self, name: &str) -> (r: Option<usize>)
        requires
            self.wf(),
        ensures
            r matches Some(i) ==> i < self.entries@.len() && self.entries@[i as int].0@ == name@ && self@.contains_key(name@)
                && self@[name@] == self.entries@[i as int].1,
            r is None ==> !self@.contains_key(name@),
    {
        let mut i: usize = 0;
        while i < self.entries.len()
            invariant
                self.wf(),
                i <= self.entries@.len(),
                forall|j: int| 0 <= j < i ==> (#[trigger] self.entries@[j]).0@ != name@,
            decreases self.entries@.len() - i,
        {
            if str_equal(self.entries[i].0.as_str(), name) {
                proof {
                    lemma_key_map_index(named_cooldowns(self.entries@), i as int);
                }
                return Some(i);
            }
            i = i + 1;
        }
        proof {
            if has_key(named_cooldowns(self.entries@), name@) {
                let j = choose|j: int|
                    0 <= j < named_cooldowns(self.entries@).len() && (#[trigger] named_cooldowns(self.entries@)[j]).0 == name@;
                assert(self.entries@[j].0@ == name@);
            }
        }
        None
    }

    /// Sets the cooldown of the skill `name` to `turns`.
    pub fn set(&mut self, name: &str, turns: u32)
        requires
            old(self).wf(),
        ensures
            final(self).wf(),
            final(self)@ == old(self)@.insert(name@, turns),
    {
        let ghost before = self.entries@;
        match self.find(name) {
            Some(i) => {
                let key = self.entries[i].0.clone();
                self.entries.set(i, (key, turns));
                proof {
                    lemma_key_map_update(named_cooldowns(before), i as int, turns);
                    assert(named_cooldowns(self.entries@) =~= named_cooldowns(before).update(
                        i as int,
                        (named_cooldowns(before)[i as int].0, turns),
                    ));
                }
            },
            None => {
                let key = String::from_str(name);
                self.entries.push((key, turns));
                proof {
                    lemma_key_map_push(named_cooldowns(before), name@, turns);
                    assert(named_cooldowns(self.entries@) =~= named_cooldowns(before).push((name@, turns)));
                }
            },
        }
    }

    /// The cooldown left on the skill `name`; a skill not seen before starts
    /// at `initial` and is recorded so.
    pub fn get_or_start(&mut self, name: &str, initial: u32) -> (r: u32)
        requires
            old(self).wf(),
        ensures
            final(self).wf(),
            old(self)@.contains_key(name@) ==> r == old(self)@[name@] && final(self)@ == old(self)@,
            !old(self)@.contains_key(name@) ==> r == initial && final(self)@ == old(self)@.insert(name@, initial),
    {
        match self.find(name) {
            Some(i) => self.entries[i].1,
            None => {
                self.set(name, initial);
                initial
            },
        }
    }

    /// Counts `ticks` off every cooldown, stopping at zero (a cooldown is
    /// taken as an `i32`, as the battle clock counts).
    pub fn tick(&mut self, ticks: i32)
        requires
            old(self).wf(),
        ensures
            final(self).wf(),
            final(self)@.dom() == old(self)@.dom(),
            forall|name: Seq<char>| #[trigger] final(self)@.contains_key(name) ==> final(self)@[name] == spec_cooled(old(self)@[name], ticks),
    {
        let ghost before = self.entries@;
        let mut k: usize = 0;
        while k < self.entries.len()
            invariant
                k <= self.entries@.len(),
                self.entries@.len() == before.len(),
                forall|j: int| 0 <= j < before.len() ==> (#[trigger] self.entries@[j]).0 == before[j].0,
                forall|j: int| 0 <= j < k ==> (#[trigger] self.entries@[j]).1 == spec_cooled(before[j].1, ticks),
                forall|j: int| k <= j < before.len() ==> (#[trigger] self.entries@[j]).1 == before[j].1,
            decreases self.entries@.len() - k,
        {
            let name = self.entries[k].0.clone();
            let turns = self.entries[k].1;
            let cooled = cooled(turns, ticks);
            self.entries.set(k, (name, cooled));
            k = k + 1;
        }
        proof {
            let nb = named_cooldowns(before);
            let na = named_cooldowns(self.entries@);
            assert forall|j: int| 0 <= j < na.len() implies (#[trigger] na[j]).0 == nb[j].0 by {}
            assert(distinct_keys(na)) by {
                assert forall|i: int, j: int| 0 <= i < na.len() && 0 <= j < na.len() && i != j implies (#[trigger] na[i]).0 != (#[trigger] na[j]).0 by {
                    assert(na[i].0 == nb[i].0 && na[j].0 == nb[j].0);
                }
            }
            assert forall|name: Seq<char>| has_key(na, name) <==> has_key(nb, name) by {
                if has_key(na, name) {
                    let j = choose|j: int| 0 <= j < na.len() && (#[trigger] na[j]).0 == name;
                    assert(nb[j].0 == name);
                }
                if has_key(nb, name) {
                    let j = choose|j: int| 0 <= j < nb.len() && (#[trigger] nb[j]).0 == name;
                    assert(na[j].0 == name);
                }
            }
            assert(self@.dom() =~= key_map(nb).dom());
            assert forall|name: Seq<char>| #[trigger] self@.contains_key(name) implies self@[name] == spec_cooled(key_map(nb)[name], ticks) by {
                let j = choose|j: int| 0 <= j < na.len() && (#[trigger] na[j]).0 == name;
                lemma_key_map_index(na, j);
                assert(nb[j].0 == name);
                lemma_key_map_index(nb, j);
            }
        }
    }
}

/// A cooldown of `turns` after `ticks` more ticks: `turns - ticks` taken as
/// an `i32`, never below zero.
pub open spec fn spec_cooled(turns: u32, ticks: i32) -> u32 {
    let left = (turns as i32) as int - ticks;
    if left > 0 {
        left as u32
    } else {
        0
    }
}

fn cooled(turns: u32, ticks: i32) -> (r: u32)
    ensures
        r == spec_cooled(turns, ticks),
{
    let left: i64 = (#[verifier::truncate] (turns as i32)) as i64 - ticks as i64;
    if left > 0 {
        left as u32
    } else {
        0
    }
}

/// The ammunition, its maxima and the cooldowns of a character.
#[derive(Clone, Debug)]
pub struct SkillResources {
    pub ammo: AmmoTable,
    pub max: AmmoTable,
    pub cooldown: Cooldowns,
}

impl SkillResources {
    /// Whether the tables are well formed.
    pub open spec fn wf(&self) -> bool {
        self.ammo.wf() && self.max.wf() && self.cooldown.wf()
    }

    /// Resources from `(kind, starting amount, maximum)` entries (a later
    /// entry for the same kind replaces an earlier one), with no cooldown.
    pub fn init(starting_ammo: &[(AmmoKind, u32, u32)]) -> (r: SkillResources)
        ensures
            r.wf(),
            forall|kind: AmmoKind| r.ammo@.contains_key(kind) <==> exists|k: int| 0 <= k < starting_ammo@.len() && (#[trigger] starting_ammo@[k]).0 == kind,
            r.ammo@.dom() == r.max@.dom(),
            forall|kind: AmmoKind| #[trigger] r.ammo@.contains_key(kind) ==> exists|k: int|
                0 <= k < starting_ammo@.len() && starting_ammo@[k].0 == kind && r.ammo@[kind] == starting_ammo@[k].1 && r.max@[kind]
                    == starting_ammo@[k].2 && forall|m: int| k < m < starting_ammo@.len() ==> (#[trigger] starting_ammo@[m]).0 != kind,
            r.cooldown@ == Map::<Seq<char>, u32>::empty(),
    {
        let mut ammo = AmmoTable::new();
        let mut max = AmmoTable::new();
        let mut k: usize = 0;
        while k < starting_ammo.len()
            invariant
                k <= starting_ammo@.len(),
                ammo.wf() && max.wf(),
                ammo@.dom() == max@.dom(),
                forall|kind: AmmoKind| ammo@.contains_key(kind) <==> exists|j: int| 0 <= j < k && (#[trigger] starting_ammo@[j]).0 == kind,
                forall|kind: AmmoKind| #[trigger] ammo@.contains_key(kind) ==> exists|j: int|
                    0 <= j < k && starting_ammo@[j].0 == kind && ammo@[kind] == starting_ammo@[j].1 && max@[kind] == starting_ammo@[j].2
                        && forall|m: int| j < m < k ==> (#[trigger] starting_ammo@[m]).0 != kind,
            decreases starting_ammo@.len() - k,
        {
            let (kind, start, most) = starting_ammo[k];
            let ghost before_ammo = ammo@;
            let ghost before_max = max@;
            ammo.set(kind, start);
            max.set(kind, most);
            proof {
                assert(ammo@.dom() =~= max@.dom());
                assert forall|q: AmmoKind| ammo@.contains_key(q) <==> exists|j: int| 0 <= j < k + 1 && (#[trigger] starting_ammo@[j]).0 == q by {
                    if q == kind {
                        assert(starting_ammo@[k as int].0 == q);
                    } else if before_ammo.contains_key(q) {
                        let j = choose|j: int| 0 <= j < k && (#[trigger] starting_ammo@[j]).0 == q;
                        assert(starting_ammo@[j].0 == q);
                    }
                }
                assert forall|q: AmmoKind| #[trigger] ammo@.contains_key(q) implies exists|j: int|
                    0 <= j < k + 1 && starting_ammo@[j].0 == q && ammo@[q] == starting_ammo@[j].1 && max@[q] == starting_ammo@[j].2
                        && forall|m: int| j < m < k + 1 ==> (#[trigger] starting_ammo@[m]).0 != q by {
                    if q == kind {
                        assert(starting_ammo@[k as int].0 == q);
                    } else {
                        assert(before_ammo.contains_key(q));
                        let j = choose|j: int|
                            0 <= j < k && starting_ammo@[j].0 == q && before_ammo[q] == starting_ammo@[j].1 && before_max[q]
                                == starting_ammo@[j].2 && forall|m: int| j < m < k ==> (#[trigger] starting_ammo@[m]).0 != q;
                        assert(starting_ammo@[j].0 == q);
                    }
                }
            }
            k = k + 1;
        }
        SkillResources { ammo, max, cooldown: Cooldowns::new() }
    }

    /// How many more uses the ammunition allows a skill that spends
    /// `ammo_info` (`None` when it spends none). Each use must take some.
    pub fn get_ammo_usage(&self, ammo_info: Option<AmmoInfo>) -> (r: Option<u32>)
        requires
            self.wf(),
            ammo_info matches Some(info) ==> info.usage > 0,
        ensures
            r == match ammo_info {
                Some(info) => Some(
                    spec_ammo_uses(
                        if self.ammo@.contains_key(info.kind) {
                            Some(self.ammo@[info.kind])
                        } else {
                            None
                        },
                        info.usage,
                    ),
                ),
                None => None,
            },
    {
        match ammo_info {
            Some(info) => {
                let uses = match self.ammo.get(info.kind) {
                    Some(current) => {
                        if current >= info.usage {
                            current / info.usage
                        } else {
                            0
                        }
                    },
                    None => 0,
                };
                Some(uses)
            },
            None => None,
        }
    }

    /// Spends what a skill with `ammo_info` takes from its ammunition; the
    /// kind must be held, with enough of it.
    pub fn spend_ammo(&mut self, ammo_info: Option<AmmoInfo>)
        requires
            old(self).wf(),
            ammo_info matches Some(info) ==> old(self).ammo@.contains_key(info.kind) && old(self).ammo@[info.kind] >= info.usage,
        ensures
            final(self).wf(),
            final(self).ammo@ == match ammo_info {
                Some(info) => old(self).ammo@.insert(info.kind, (old(self).ammo@[info.kind] - info.usage) as u32),
                None => old(self).ammo@,
            },
            final(self).max@ == old(self).max@,
            final(self).cooldown@ == old(self).cooldown@,
    {
        if let Some(info) = ammo_info {
            let current = self.ammo.get(info.kind).unwrap();
            self.ammo.set(info.kind, current - info.usage);
        }
    }

    /// Adds `amount` of `kind`, up to its maximum; the kind must be held.
    pub fn reload_core(&mut self, kind: AmmoKind, amount: u32)
        requires
            old(self).wf(),
            old(self).ammo@.contains_key(kind),
            old(self).max@.contains_key(kind),
            old(self).ammo@[kind] + amount <= u32::MAX,
        ensures
            final(self).wf(),
            final(self).ammo@ == old(self).ammo@.insert(
                kind,
                if old(self).ammo@[kind] + amount < old(self).max@[kind] {
                    (old(self).ammo@[kind] + amount) as u32
                } else {
                    old(self).max@[kind]
                },
            ),
            final(self).max@ == old(self).max@,
            final(self).cooldown@ == old(self).cooldown@,
    {
        let current = self.ammo.get(kind).unwrap();
        let max = self.max.get(kind).unwrap();
        let total = amount + current;
        let amount = if total < max {
            total
        } else {
            max
        };
        self.ammo.set(kind, amount);
    }

    /// Reloads `kind` by `amount`, or fully when no amount is given.
    pub fn reload(&mut self, kind: AmmoKind, amount: Option<u32>)
        requires
            old(self).wf(),
            old(self).ammo@.contains_key(kind),
            old(self).max@.contains_key(kind),
            old(self).ammo@[kind] + match amount {
                Some(a) => a,
                None => old(self).max@[kind],
            } <= u32::MAX,
        ensures
            final(self).wf(),
            ({
                let a = match amount {
                    Some(a) => a as int,
                    None => old(self).max@[kind] as int,
                };
                final(self).ammo@ == old(self).ammo@.insert(
                    kind,
                    if old(self).ammo@[kind] + a < old(self).max@[kind] {
                        (old(self).ammo@[kind] + a) as u32
                    } else {
                        old(self).max@[kind]
                    },
                )
            }),
            final(self).max@ == old(self).max@,
            final(self).cooldown@ == old(self).cooldown@,
    {
        let amount = match amount {
            Some(a) => a,
            None => self.max.get(kind).unwrap(),
        };
        self.reload_core(kind, amount);
    }

    /// Gains `amount` adrenaline, up to its maximum, when the character has
    /// adrenaline at all.
    pub fn gain_adrenaline(&mut self, amount: u32)
        requires
            old(self).wf(),
            old(self).ammo@.contains_key(AmmoKind::Adrenaline) ==> old(self).max@.contains_key(AmmoKind::Adrenaline)
                && old(self).ammo@[AmmoKind::Adrenaline] + amount <= u32::MAX,
        ensures
            final(self).wf(),
            old(self).ammo@.contains_key(AmmoKind::Adrenaline) ==> final(self).ammo@ == old(self).ammo@.insert(
                AmmoKind::Adrenaline,
                if old(self).ammo@[AmmoKind::Adrenaline] + amount < old(self).max@[AmmoKind::Adrenaline] {
                    (old(self).ammo@[AmmoKind::Adrenaline] + amount) as u32
                } else {
                    old(self).max@[AmmoKind::Adrenaline]
                },
            ),
            !old(self).ammo@.contains_key(AmmoKind::Adrenaline) ==> final(self).ammo@ == old(self).ammo@,
            final(self).max@ == old(self).max@,
            final(self).cooldown@ == old(self).cooldown@,
    {
        if let Some(current) = self.ammo.get(AmmoKind::Adrenaline) {
            let max = self.max.get(AmmoKind::Adrenaline).unwrap();
            let total = current + amount;
            let new_total = if total < max {
                total
            } else {
                max
            };
            self.ammo.set(AmmoKind::Adrenaline, new_total);
        }
    }
}

/// Reloading keeps ammunition within its maximum and never loses any that
/// was within it: from `current` at most `max`, adding `amount` gives at
/// least `current` and at most `max`.
pub proof fn lemma_reload_within_max(current: u32, amount: u32, max: u32)
    requires
        current <= max,
    ensures
        ({
            let after = if current + amount < max {
                current + amount
            } else {
                max as int
            };
            current <= after <= max
        }),
{
}

/// A cooldown runs out once as many ticks pass as it has left, and time
/// never lengthens it.
pub proof fn lemma_cooldown_runs_out(turns: u32, ticks: i32)
    requires
        turns <= i32::MAX,
        ticks >= 0,
    ensures
        spec_cooled(turns, ticks) <= turns,
        ticks >= turns ==> spec_cooled(turns, ticks) == 0,
        ticks < turns ==> spec_cooled(turns, ticks) + ticks == turns,
{
    assert((turns as i32) as int == turns as int) by (bit_vector)
        requires
            turns <= 0x7fff_ffffu32,
    ;
}

/// The limit on uses is the smallest of the limits that apply: it is one
/// of them, no greater than any, and there is none only when none applies.
pub proof fn lemma_min_limit(a: Option<u32>, b: Option<u32>)
    ensures
        spec_min_limit(a, b) is None <==> (a is None && b is None),
        spec_min_limit(a, b) matches Some(m) ==> (spec_min_limit(a, b) == a || spec_min_limit(a, b) == b),
        spec_min_limit(a, b) matches Some(m) ==> (a matches Some(x) ==> m <= x) && (b matches Some(y) ==> m <= y),
{
}

/// Paying for a skill spends exactly the ammunition it takes from the kind
/// it takes it from, and earned adrenaline grows by the amount earned but
/// never past its maximum; every other kind stays as it was.
pub proof fn lemma_payment_amounts(ammo: Map<AmmoKind, u32>, max: Map<AmmoKind, u32>, info: AmmoInfo, amount: u32, kind: AmmoKind)
    requires
        ammo.contains_key(info.kind),
        ammo[info.kind] >= info.usage,
    ensures
        ammo_after_spending(ammo, Some(info))[info.kind] + info.usage == ammo[info.kind],
        kind != info.kind ==> ammo_after_spending(ammo, Some(info)).contains_key(kind) == ammo.contains_key(kind)
            && ammo_after_spending(ammo, Some(info))[kind] == ammo[kind],
        ammo_after_spending(ammo, None) == ammo,
        ammo.contains_key(AmmoKind::Adrenaline) ==> {
            let after = ammo_after_adrenaline(ammo, max, amount)[AmmoKind::Adrenaline];
            &&& after <= ammo[AmmoKind::Adrenaline] + amount
            &&& after <= max[AmmoKind::Adrenaline]
            &&& (after == ammo[AmmoKind::Adrenaline] + amount || after == max[AmmoKind::Adrenaline])
        },
        kind != AmmoKind::Adrenaline ==> ammo_after_adrenaline(ammo, max, amount).contains_key(kind) == ammo.contains_key(kind)
            && ammo_after_adrenaline(ammo, max, amount)[kind] == ammo[kind],
        !ammo.contains_key(AmmoKind::Adrenaline) ==> ammo_after_adrenaline(ammo, max, amount) == ammo,
{
}

/// Skills keyed by their names' text.
pub open spec fn named_skills(s: Seq<SkillInfo>) -> Seq<(Seq<char>, SkillInfo)> {
    s.map_values(|k: SkillInfo| (k.name@, k))
}

/// The skills known to a game, by name, each name at most once.
pub struct SkillsResource {
    skills: Vec<SkillInfo>,
}

impl View for SkillsResource {
    type V = Map<Seq<char>, SkillInfo>;

    closed spec fn view(&self) -> Map<Seq<char>, SkillInfo> {
        key_map(named_skills(self.skills@))
    }
}

/// `known` with each skill of `added` put under its name, later ones
/// replacing earlier ones.
pub open spec fn with_skills(known: Map<Seq<char>, SkillInfo>, added: Seq<SkillInfo>) -> Map<Seq<char>, SkillInfo>
    decreases added.len(),
{
    if added.len() == 0 {
        known
    } else {
        with_skills(known, added.drop_last()).insert(added.last().name@, added.last())
    }
}

/// The images of the skills of `s` that have one, in order.
pub open spec fn skill_images(s: Seq<SkillInfo>) -> Seq<Seq<char>>
    decreases s.len(),
{
    if s.len() == 0 {
        Seq::empty()
    } else {
        skill_images(s.drop_last()) + match s.last().image {
            Some(image) => seq![image@],
            None => Seq::empty(),
        }
    }
}

/// An image is listed exactly when some skill has it.
proof fn lemma_skill_images_members(s: Seq<SkillInfo>)
    ensures
        forall|x: Seq<char>|
            skill_images(s).contains(x) <==> exists|j: int| 0 <= j < s.len() && (#[trigger] s[j]).image is Some && s[j].image->0@ == x,
    decreases s.len(),
{
    if s.len() > 0 {
        let t = s.drop_last();
        lemma_skill_images_members(t);
        let tail = match s.last().image {
            Some(image) => seq![image@],
            None => Seq::<Seq<char>>::empty(),
        };
        assert(skill_images(s) == skill_images(t) + tail);
        assert forall|x: Seq<char>|
            skill_images(s).contains(x) <==> exists|j: int| 0 <= j < s.len() && (#[trigger] s[j]).image is Some && s[j].image->0@ == x by {
            if skill_images(s).contains(x) {
                let i = choose|i: int| 0 <= i < skill_images(s).len() && skill_images(s)[i] == x;
                if i < skill_images(t).len() {
                    assert(skill_images(t)[i] == x);
                    assert(skill_images(t).contains(x));
                    let j = choose|j: int| 0 <= j < t.len() && (#[trigger] t[j]).image is Some && t[j].image->0@ == x;
                    assert(s[j] == t[j]);
                    assert(0 <= j < s.len() && s[j].image is Some && s[j].image->0@ == x);
                } else {
                    assert(tail[i - skill_images(t).len()] == x);
                    assert(s[s.len() - 1] == s.last());
                }
            }
            if exists|j: int| 0 <= j < s.len() && (#[trigger] s[j]).image is Some && s[j].image->0@ == x {
                let j = choose|j: int| 0 <= j < s.len() && (#[trigger] s[j]).image is Some && s[j].image->0@ == x;
                if j < s.len() - 1 {
                    assert(t[j] == s[j]);
                    assert(skill_images(t).contains(x));
                    let i = choose|i: int| 0 <= i < skill_images(t).len() && skill_images(t)[i] == x;
                    assert(skill_images(s)[i] == x);
                } else {
                    assert(skill_images(s)[skill_images(t).len() as int] == x);
                }
            }
        }
    }
}

impl SkillsResource {
    /// Whether each name is held at most once.
    pub closed spec fn wf(&self) -> bool {
        distinct_keys(named_skills(self.skills@))
    }

    /// No skill.
    pub fn init() -> (r: SkillsResource)
        ensures
            r.wf(),
            r@ == Map::<Seq<char>, SkillInfo>::empty(),
    {
        let r = SkillsResource { skills: Vec::new() };
        assert(r@ =~= Map::<Seq<char>, SkillInfo>::empty());
        r
    }

    fn find(&self, name: &str) -> (r: Option<usize>)
        requires
            self.wf(),
        ensures
            r matches Some(i) ==> i < self.skills@.len() && self.skills@[i as int].name@ == name@ && self@.contains_key(name@)
                && self@[name@] == self.skills@[i as int],
            r is None ==> !self@.contains_key(name@),
    {
        let mut i: usize = 0;
        while i < self.skills.len()
            invariant
                self.wf(),
                i <= self.skills@.len(),
                forall|j: int| 0 <= j < i ==> (#[trigger] self.skills@[j]).name@ != name@,
            decreases self.skills@.len() - i,
        {
            if str_equal(self.skills[i].name, name) {
                proof {
                    lemma_key_map_index(named_skills(self.skills@), i as int);
                }
                return Some(i);
            }
            i = i + 1;
        }
        proof {
            if has_key(named_skills(self.skills@), name@) {
                let j = choose|j: int| 0 <= j < named_skills(self.skills@).len() && (#[trigger] named_skills(self.skills@)[j]).0 == name@;
                assert(self.skills@[j].name@ == name@);
            }
        }
        None
    }

    /// Whether a skill is named `name`.
    pub fn contains(&self, name: &str) -> (r: bool)
        requires
            self.wf(),
        ensures
            r == self@.contains_key(name@),
    {
        self.find(name).is_some()
    }

    /// The skill named `name`.
    pub fn get(&self, name: &str) -> (r: SkillInfo)
        requires
            self.wf(),
            self@.contains_key(name@),
        ensures
            r == self@[name@],
    {
        match self.find(name) {
            Some(i) => self.skills[i].duplicate(),
            None => {
                proof {
                    assert(false);
                }
                self.skills[0].duplicate()
            },
        }
    }

    /// The image files of the skills that have one.
    pub fn all_skill_image_files(&self) -> (r: Vec<String>)
        requires
            self.wf(),
        ensures
            forall|x: Seq<char>|
                string_views(r@).contains(x) <==> exists|name: Seq<char>|
                    #![trigger self@[name]]
                    self@.contains_key(name) && self@[name].image is Some && self@[name].image->0@ == x,
    {
        let mut r: Vec<String> = Vec::new();
        let mut k: usize = 0;
        while k < self.skills.len()
            invariant
                k <= self.skills@.len(),
                string_views(r@) == skill_images(self.skills@.subrange(0, k as int)),
            decreases self.skills@.len() - k,
        {
            let ghost before = string_views(r@);
            if let Some(image) = self.skills[k].image {
                push_line(&mut r, String::from_str(image));
            }
            assert(self.skills@.subrange(0, k + 1).drop_last() =~= self.skills@.subrange(0, k as int));
            k += 1;
        }
        proof {
            let s = self.skills@;
            assert(s.subrange(0, s.len() as int) =~= s);
            lemma_skill_images_members(s);
            assert forall|x: Seq<char>|
                string_views(r@).contains(x) implies exists|name: Seq<char>|
                    #![trigger self@[name]]
                    self@.contains_key(name) && self@[name].image is Some && self@[name].image->0@ == x by {
                let j = choose|j: int| 0 <= j < s.len() && (#[trigger] s[j]).image is Some && s[j].image->0@ == x;
                lemma_key_map_index(named_skills(s), j);
                assert(named_skills(s)[j] == (s[j].name@, s[j]));
                assert(self@[s[j].name@] == s[j]);
            }
            assert forall|x: Seq<char>|
                (exists|name: Seq<char>|
                    #![trigger self@[name]]
                    self@.contains_key(name) && self@[name].image is Some && self@[name].image->0@ == x) implies string_views(
                r@,
            ).contains(x) by {
                let name = choose|name: Seq<char>|
                    #![trigger self@[name]]
                    self@.contains_key(name) && self@[name].image is Some && self@[name].image->0@ == x;
                let j = choose|j: int| 0 <= j < named_skills(s).len() && (#[trigger] named_skills(s)[j]).0 == name;
                lemma_key_map_index(named_skills(s), j);
                assert(named_skills(s)[j] == (s[j].name@, s[j]));
                assert(s[j].image is Some && s[j].image->0@ == x);
            }
        }
        r
    }

    /// Puts `skill` under its name, replacing a skill of that name.
    pub fn add(&mut self, skill: SkillInfo)
        requires
            old(self).wf(),
        ensures
            final(self).wf(),
            final(self)@ == old(self)@.insert(skill.name@, skill),
    {
        let ghost before = self.skills@;
        let ghost entry = (skill.name@, skill);
        match self.find(skill.name) {
            Some(i) => {
                self.skills.set(i, skill);
                proof {
                    lemma_key_map_update(named_skills(before), i as int, entry.1);
                    assert(named_skills(self.skills@) =~= named_skills(before).update(i as int, (named_skills(before)[i as int].0, entry.1)));
                }
            },
            None => {
                self.skills.push(skill);
                proof {
                    lemma_key_map_push(named_skills(before), entry.0, entry.1);
                    assert(named_skills(self.skills@) =~= named_skills(before).push(entry));
                }
            },
        }
    }

    /// Puts each skill of `added` under its name, in order.
    pub fn add_all(&mut self, added: &Vec<SkillInfo>)
        requires
            old(self).wf(),
        ensures
            final(self).wf(),
            final(self)@ == with_skills(old(self)@, added@),
    {
        let ghost start = self@;
        let mut k: usize = 0;
        while k < added.len()
            invariant
                k <= added@.len(),
                self.wf(),
                self@ == with_skills(start, added@.subrange(0, k as int)),
            decreases added@.len() - k,
        {
            self.add(added[k].duplicate());
            assert(added@.subrange(0, k + 1).drop_last() =~= added@.subrange(0, k as int));
            k += 1;
        }
        assert(added@.subrange(0, added@.len() as int) =~= added@);
    }
}

/// The cooldown a skill starts with when first looked at: its full
/// cooldown when it starts spent, none otherwise.
pub open spec fn starting_cooldown(skill: SkillInfo) -> u32 {
    if skill.start_cooldown_spent {
        skill.cooldown->0
    } else {
        0
    }
}

impl SkillInfo {
    /// The cooldown left on this skill among `cooldowns`; a skill not seen
    /// before starts at its starting cooldown, and is recorded so.
    pub fn get_cooldown(&self, cooldowns: &mut Cooldowns) -> (r: u32)
        requires
            old(cooldowns).wf(),
            self.start_cooldown_spent ==> self.cooldown is Some,
        ensures
            final(cooldowns).wf(),
            old(cooldowns)@.contains_key(self.name@) ==> r == old(cooldowns)@[self.name@] && final(cooldowns)@ == old(cooldowns)@,
            !old(cooldowns)@.contains_key(self.name@) ==> r == starting_cooldown(*self) && final(cooldowns)@ == old(
                cooldowns,
            )@.insert(self.name@, starting_cooldown(*self)),
    {
        let initial = if self.start_cooldown_spent {
            match self.cooldown {
                Some(c) => c,
                None => 0,
            }
        } else {
            0
        };
        cooldowns.get_or_start(self.name, initial)
    }
}

/// Starts the full cooldown of `skill` among `cooldowns`.
pub fn spend_cooldown(cooldowns: &mut Cooldowns, skill: &SkillInfo)
    requires
        old(cooldowns).wf(),
        skill.cooldown is Some,
    ensures
        final(cooldowns).wf(),
        final(cooldowns)@ == old(cooldowns)@.insert(skill.name@, skill.cooldown->0),
{
    match skill.cooldown {
        Some(c) => cooldowns.set(skill.name, c),
        None => {},
    }
}

/// `ammo` once a skill spending `ammo_info` has been used.
pub open spec fn ammo_after_spending(ammo: Map<AmmoKind, u32>, ammo_info: Option<AmmoInfo>) -> Map<AmmoKind, u32> {
    match ammo_info {
        Some(info) => ammo.insert(info.kind, (ammo[info.kind] - info.usage) as u32),
        None => ammo,
    }
}

/// `ammo` with `amount` more adrenaline, up to its maximum in `max`, when
/// adrenaline is held at all.
pub open spec fn ammo_after_adrenaline(ammo: Map<AmmoKind, u32>, max: Map<AmmoKind, u32>, amount: u32) -> Map<AmmoKind, u32> {
    if ammo.contains_key(AmmoKind::Adrenaline) {
        ammo.insert(
            AmmoKind::Adrenaline,
            if ammo[AmmoKind::Adrenaline] + amount < max[AmmoKind::Adrenaline] {
                (ammo[AmmoKind::Adrenaline] + amount) as u32
            } else {
                max[AmmoKind::Adrenaline]
            },
        )
    } else {
        ammo
    }
}

/// Whether `resources` can pay for using `skill`: it holds enough of the
/// ammunition it spends, and the adrenaline it earns fits.
pub open spec fn can_pay_for(resources: SkillResources, skill: SkillInfo) -> bool {
    let spent = ammo_after_spending(resources.ammo@, skill.ammo_info);
    &&& skill.ammo_info matches Some(info) ==> resources.ammo@.contains_key(info.kind) && resources.ammo@[info.kind] >= info.usage
    &&& spent.contains_key(AmmoKind::Adrenaline) ==> resources.max@.contains_key(AmmoKind::Adrenaline) && spent[AmmoKind::Adrenaline]
        + spec_adrenaline_gain(skill.effect) <= u32::MAX
}

/// Pays from `resources` for using `skill`: spends its ammunition, starts
/// its cooldown if it has one, then earns the adrenaline it brings.
pub fn pay_for_skill(resources: &mut SkillResources, skill: &SkillInfo)
    requires
        old(resources).wf(),
        can_pay_for(*old(resources), *skill),
    ensures
        final(resources).wf(),
        final(resources).ammo@ == ammo_after_adrenaline(
            ammo_after_spending(old(resources).ammo@, skill.ammo_info),
            old(resources).max@,
            spec_adrenaline_gain(skill.effect),
        ),
        final(resources).max@ == old(resources).max@,
        final(resources).cooldown@ == match skill.cooldown {
            Some(c) => old(resources).cooldown@.insert(skill.name@, c),
            None => old(resources).cooldown@,
        },
{
    resources.spend_ammo(skill.ammo_info);
    if skill.cooldown.is_some() {
        spend_cooldown(&mut resources.cooldown, skill);
    }
    resources.gain_adrenaline(adrenaline_gain(&skill.effect));
}

/// Adding a skill makes it what its name looks up, and leaves every other
/// name as it was.
pub proof fn lemma_added_skill_found(before: SkillsResource, after: SkillsResource, skill: SkillInfo)
    requires
        after@ == before@.insert(skill.name@, skill),
    ensures
        after@.contains_key(skill.name@),
        after@[skill.name@] == skill,
        forall|name: Seq<char>| name != skill.name@ ==> (after@.contains_key(name) <==> before@.contains_key(name)) && (
        before@.contains_key(name) ==> after@[name] == before@[name]),
{
}

} // verus!
