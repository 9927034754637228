use rand::rngs::StdRng;
use vstd::prelude::*;

use crate::atlas::point::{Point, SizedPoint};
use crate::clash::damage::{
    damage_reactions, has_option, hit_count, knockback_destination, spec_damage, spec_knockback_destination, Damage, DamageElement,
    DamageOptions, DamageReactions, RolledDamage, ARMORED_ADDITIONAL_ARMOR, STATIC_CHARGE_DAMAGE,
};
use crate::clash::events::{MovementComponent, PostMoveAction};
use crate::clash::defenses::{min, remain, spec_mitigation, Defenses};
use crate::clash::log::Log;
use crate::clash::status::{is_trait, StatusKind, StatusStore, StatusType};
use crate::atlas::direction::{as_i32, spec_clamp_to_one};
use crate::text::{concat2, concat4, decimal_u32, spec_decimal, string_views};

verus! {

/// How long a static charge or a taken aim lasts, in ticks.
pub const STATUS_LENGTH: i32 = 300;

/// A character in battle as far as taking hits is concerned.
pub struct Combatant {
    pub name: String,
    pub position: SizedPoint,
    pub defenses: Defenses,
    pub statuses: StatusStore,
    /// The move the character has begun, if any, and what follows it.
    pub movement: Option<(MovementComponent, PostMoveAction)>,
}

/// Begins moving `target` to `new_position`; `action` follows once the
/// move is over. A move already begun is replaced.
pub fn begin_move(target: &mut Combatant, new_position: SizedPoint, action: PostMoveAction)
    ensures
        final(target).movement == Some((MovementComponent { new_position }, action)),
        final(target).name == old(target).name,
        final(target).position == old(target).position,
        final(target).defenses == old(target).defenses,
        final(target).statuses == old(target).statuses,
{
    target.movement = Some((MovementComponent::init(new_position), action));
}

/// Ends the move `target` has begun, if any: the character now stands with
/// its origin where the move led, and what follows the move comes back.
pub fn complete_move(target: &mut Combatant) -> (r: Option<PostMoveAction>)
    ensures
        match old(target).movement {
            Some((m, action)) => {
                &&& r == Some(action)
                &&& final(target).position == (SizedPoint { origin: m.new_position.origin, width: old(target).position.width, height: old(target).position.height })
                &&& final(target).movement is None
            },
            None => r is None && final(target).position == old(target).position && final(target).movement is None,
        },
        final(target).name == old(target).name,
        final(target).defenses == old(target).defenses,
        final(target).statuses == old(target).statuses,
{
    match target.movement {
        Some((m, action)) => {
            target.position = target.position.move_to(m.new_position.origin);
            target.movement = None;
            Some(action)
        },
        None => None,
    }
}

/// The armor an armored character adds against hits.
pub open spec fn extra_armor(statuses: Map<StatusKind, StatusType>) -> u32 {
    if statuses.contains_key(StatusKind::Armored) {
        ARMORED_ADDITIONAL_ARMOR
    } else {
        0
    }
}

/// Whether `after` is `before` once it has taken a hit of `damage` (with
/// `additional_armor` more armor) that came out as `r`, for some possible
/// rolls of the dice.
pub open spec fn hit_taken(before: Defenses, after: Defenses, damage: Damage, additional_armor: u32, r: RolledDamage) -> bool {
    &&& exists|damage_value: int, dodge_value: int, soak_rolls: Seq<u32>|
        #[trigger] before.valid_rolls(damage, additional_armor, damage_value, dodge_value, soak_rolls) && {
            let m = spec_mitigation(before, damage, damage_value, dodge_value, soak_rolls);
            &&& r.absorbed_by_dodge == m.0
            &&& r.absorbed_by_armor == m.1
            &&& r.absorbed_by_resist == m.2
            &&& r.amount == m.3
            &&& after.absorb == before.absorb - min(m.3, before.absorb as int)
            &&& after.health == before.health - min(remain(m.3, before.absorb as int), before.health as int)
        }
    &&& r.options == damage.options
    &&& after.dodge == if has_option(damage.options, DamageOptions::PIERCE_DEFENSES) {
        before.dodge as int
    } else {
        before.dodge - before.dodge_used(damage)
    }
    &&& after.max_dodge == before.max_dodge
    &&& after.armor == before.armor
    &&& after.max_health == before.max_health
    &&& after.resistances == before.resistances
}

/// The log line of a hit: who took how much of how many dice.
pub open spec fn took_line(name: Seq<char>, amount: u32, dice: u32) -> Seq<char> {
    name + " took "@ + spec_decimal(amount as int) + " damage ("@ + spec_decimal(dice as int) + " {{Sword}})"@
}

/// The piercing hit that a static charge deals when used up.
pub open spec fn charge_damage() -> Damage {
    spec_damage(STATIC_CHARGE_DAMAGE, DamageElement::PHYSICAL, DamageOptions::PIERCE_DEFENSES)
}

/// What follows a hit with `options` on a target that carries a static
/// charge or not, `source_aimed` telling whether a character stands where the
/// hit came from and has already taken aim.
pub open spec fn spec_reactions(options: DamageOptions, charged: bool, source_aimed: Option<bool>) -> DamageReactions {
    let knockback_uses_charge = !has_option(options, DamageOptions::KNOCKBACK) && has_option(
        options,
        DamageOptions::CONSUMES_CHARGE_KNOCKBACK,
    ) && charged;
    let add_charge = has_option(options, DamageOptions::ADD_CHARGE_STATUS) && !(charged && !knockback_uses_charge);
    DamageReactions {
        knockback: has_option(options, DamageOptions::KNOCKBACK) || has_option(options, DamageOptions::CONSUMES_CHARGE_KNOCKBACK)
            && charged,
        knockback_uses_charge,
        add_charge,
        charge_damage: has_option(options, DamageOptions::CONSUMES_CHARGE_DMG) && ((charged && !knockback_uses_charge) || add_charge),
        aim_source: has_option(options, DamageOptions::AIMED_SHOT) && source_aimed == Some(false),
    }
}

/// Whether `m` holds `k` as a timed status that has just started and lasts
/// `STATUS_LENGTH` ticks.
pub open spec fn fresh_status(m: Map<StatusKind, StatusType>, k: StatusKind) -> bool {
    &&& m.contains_key(k)
    &&& m[k] matches StatusType::Status(t) && t.spec_ticks() == 0 && t.spec_duration() == STATUS_LENGTH
}

/// Whether `after` are the statuses `before` once the reactions `r` to a hit
/// have run: a used-up charge is gone, a new charge has just started.
pub open spec fn statuses_after_hit(before: Map<StatusKind, StatusType>, after: Map<StatusKind, StatusType>, r: DamageReactions) -> bool {
    if r.charge_damage || (r.knockback_uses_charge && !r.add_charge) {
        after == before.remove(StatusKind::StaticCharge)
    } else if r.add_charge {
        after.remove(StatusKind::StaticCharge) == before.remove(StatusKind::StaticCharge) && fresh_status(
            after,
            StatusKind::StaticCharge,
        )
    } else {
        after == before
    }
}

/// Whether the knockback of a character at `target` by a hit from `source`
/// stays within `i32` arithmetic.
pub open spec fn knockback_in_range(source: Point, target: SizedPoint) -> bool {
    &&& i32::MIN <= as_i32(target.origin.x) - as_i32(source.x) <= i32::MAX
    &&& i32::MIN <= as_i32(target.origin.y) - as_i32(source.y) <= i32::MAX
    &&& i32::MIN <= as_i32(target.origin.x) + spec_clamp_to_one(as_i32(target.origin.x) - as_i32(source.x)) <= i32::MAX
    &&& i32::MIN <= as_i32(target.origin.y) + spec_clamp_to_one(as_i32(target.origin.y) - as_i32(source.y)) <= i32::MAX
}

/// Whether the knockback of a character at `target` by a hit from `source`
/// stays within `i32` arithmetic.
pub fn knockback_fits(source: &Point, target: &SizedPoint) -> (r: bool)
    ensures
        r == knockback_in_range(*source, *target),
{
    let tx: i64 = target.origin.x as i32 as i64;
    let ty: i64 = target.origin.y as i32 as i64;
    let dx: i64 = tx - source.x as i32 as i64;
    let dy: i64 = ty - source.y as i32 as i64;
    let step_x: i64 = if dx < 0 {
        -1
    } else if dx > 0 {
        1
    } else {
        0
    };
    let step_y: i64 = if dy < 0 {
        -1
    } else if dy > 0 {
        1
    } else {
        0
    };
    let lo: i64 = i32::MIN as i64;
    let hi: i64 = i32::MAX as i64;
    lo <= dx && dx <= hi && lo <= dy && dy <= hi && lo <= tx + step_x && tx + step_x <= hi && lo <= ty + step_y && ty + step_y
        <= hi
}

/// Where the target of a hit ends up knocked to, if anywhere: it needs the
/// knockback reaction, a known source, a step on the map and free tiles there.
pub open spec fn knocked_to(r: DamageReactions, source_position: Option<Point>, position: SizedPoint, clear: bool) -> Option<SizedPoint> {
    if r.knockback && clear {
        match source_position {
            Some(p) => spec_knockback_destination(p, position),
            None => None,
        }
    } else {
        None
    }
}

/// The log lines a hit adds, in order.
pub open spec fn hit_log(
    name: Seq<char>,
    damage: Damage,
    amount: u32,
    r: DamageReactions,
    knocked: bool,
    charge_amount: u32,
    source_name: Seq<char>,
) -> Seq<Seq<char>> {
    seq![took_line(name, amount, damage.amount.dice)] + (if knocked {
        seq![name + " is knocked back."@]
    } else {
        Seq::empty()
    }) + (if r.add_charge {
        seq![name + " crackles with static electricity."@]
    } else {
        Seq::empty()
    }) + (if r.charge_damage {
        seq![took_line(name, charge_amount, STATIC_CHARGE_DAMAGE)]
    } else {
        Seq::empty()
    }) + (if r.aim_source {
        seq![source_name + " takes aim."@]
    } else {
        Seq::empty()
    })
}

/// Lands one hit of `damage` on `target` (armored targets add armor) and
/// logs it.
fn land_hit(rng: &mut StdRng, target: &mut Combatant, damage: Damage, log: &mut Log) -> (r: RolledDamage)
    requires
        old(target).statuses.wf(),
        old(target).defenses.can_take(damage, extra_armor(old(target).statuses@)),
    ensures
        hit_taken(old(target).defenses, final(target).defenses, damage, extra_armor(old(target).statuses@), r),
        final(target).name == old(target).name,
        final(target).position == old(target).position,
        final(target).statuses == old(target).statuses,
        final(target).movement == old(target).movement,
        final(log).logs@.len() == old(log).logs@.len() + 1,
        forall|k: int| 0 <= k < old(log).logs@.len() ==> #[trigger] final(log).logs@[k] == old(log).logs@[k],
        final(log).logs@[old(log).logs@.len() as int]@ == took_line(old(target).name@, r.amount, damage.amount.dice),
{
    let r = if target.statuses.has(StatusKind::Armored) {
        target.defenses.apply_damage_with_additional_armor(damage, ARMORED_ADDITIONAL_ARMOR, rng)
    } else {
        target.defenses.apply_damage(damage, rng)
    };
    let amount = decimal_u32(r.amount);
    let dice = decimal_u32(damage.dice());
    let head = concat4(target.name.as_str(), " took ", amount.as_str(), " damage (");
    let line = concat4(head.as_str(), dice.as_str(), " {{Sword}})", "");
    proof {
        reveal_strlit("");
        assert(line@ =~= took_line(target.name@, r.amount, damage.amount.dice));
    }
    log.add(line.as_str());
    r
}

/// Whether a hit of `damage` that came out as `rolled`, from
/// `source_position` where the character `src_before` stands (if any), took
/// a target that is not flying from `before` to `after`, the source from
/// `src_before` to `src_after` and the log from `log_before` to `log_after`;
/// `knockback_clear` tells whether the knockback tiles are free.
pub open spec fn hit_target_outcome(
    before: Combatant,
    after: Combatant,
    src_before: Option<Combatant>,
    src_after: Option<Combatant>,
    log_before: Seq<String>,
    log_after: Seq<String>,
    damage: Damage,
    source_position: Option<Point>,
    knockback_clear: bool,
    rolled: RolledDamage,
) -> bool {
    let armor = extra_armor(before.statuses@);
    let charged = before.statuses@.contains_key(StatusKind::StaticCharge);
    let aimed = match src_before {
        Some(s) => Some(s.statuses@.contains_key(StatusKind::Aimed)),
        None => None,
    };
    let source_name = match src_before {
        Some(s) => s.name@,
        None => Seq::empty(),
    };
    let reactions = spec_reactions(damage.options, charged, aimed);
    let knocked = knocked_to(reactions, source_position, before.position, knockback_clear);
    &&& rolled.options == damage.options
    &&& after.name == before.name
    &&& after.position == before.position
    &&& after.movement == match knocked {
        Some(p) => Some((MovementComponent { new_position: p }, PostMoveAction::CheckNewLocationDamage)),
        None => before.movement,
    }
    &&& after.statuses.wf()
    &&& statuses_after_hit(before.statuses@, after.statuses@, reactions)
    &&& if reactions.charge_damage {
        exists|mid: Defenses, charge: RolledDamage|
            #![trigger hit_taken(mid, after.defenses, charge_damage(), armor, charge)]
            hit_taken(before.defenses, mid, damage, armor, rolled) && hit_taken(mid, after.defenses, charge_damage(), armor, charge)
                && string_views(log_after) =~= string_views(log_before) + hit_log(
                before.name@,
                damage,
                rolled.amount,
                reactions,
                knocked is Some,
                charge.amount,
                source_name,
            )
    } else {
        &&& hit_taken(before.defenses, after.defenses, damage, armor, rolled)
        &&& string_views(log_after) =~= string_views(log_before) + hit_log(
            before.name@,
            damage,
            rolled.amount,
            reactions,
            knocked is Some,
            0,
            source_name,
        )
    }
}

/// Whether the source went from `src_before` to `src_after` in a hit of
/// `damage` on a target that stood with the statuses `target_statuses`: it
/// took aim if the hit asks for it and it had not yet.
pub open spec fn hit_source_outcome(
    target_statuses: Map<StatusKind, StatusType>,
    src_before: Option<Combatant>,
    src_after: Option<Combatant>,
    damage: Damage,
) -> bool {
    let charged = target_statuses.contains_key(StatusKind::StaticCharge);
    let aimed = match src_before {
        Some(s) => Some(s.statuses@.contains_key(StatusKind::Aimed)),
        None => None,
    };
    let reactions = spec_reactions(damage.options, charged, aimed);
    &&& src_after is Some == src_before is Some
    &&& src_before matches Some(s) ==> {
        let t = src_after->0;
        &&& t.name == s.name
        &&& t.position == s.position
        &&& t.defenses == s.defenses
        &&& t.movement == s.movement
        &&& t.statuses.wf()
        &&& if reactions.aim_source {
            t.statuses@.remove(StatusKind::Aimed) == s.statuses@ && fresh_status(t.statuses@, StatusKind::Aimed)
        } else {
            t.statuses@ == s.statuses@
        }
    }
}

/// Whether a hit of `damage` that came out as `rolled`, from
/// `source_position` where the character `src_before` stands (if any), took
/// a target that is not flying from `before` to `after`, the source from
/// `src_before` to `src_after` and the log from `log_before` to `log_after`;
/// `knockback_clear` tells whether the knockback tiles are free.
pub open spec fn hit_outcome(
    before: Combatant,
    after: Combatant,
    src_before: Option<Combatant>,
    src_after: Option<Combatant>,
    log_before: Seq<String>,
    log_after: Seq<String>,
    damage: Damage,
    source_position: Option<Point>,
    knockback_clear: bool,
    rolled: RolledDamage,
) -> bool {
    &&& hit_target_outcome(before, after, src_before, src_after, log_before, log_after, damage, source_position, knockback_clear, rolled)
    &&& hit_source_outcome(before.statuses@, src_before, src_after, damage)
}

/// Applies one hit of `damage` to `target`, coming from `source_position`
/// where `source` stands, if anyone does. `knockback_clear` tells whether the
/// tiles the target would be knocked back to are free of other characters.
///
/// A flying target cannot be hit: nothing changes and `None` comes back.
/// Otherwise the hit lands (armored targets add armor against it) and
/// returns how it came out; then, as `damage_reactions` decides, the target
/// may be knocked back one step away from the source, gain a static charge,
/// or lose its charge (taking a piercing hit of `STATIC_CHARGE_DAMAGE` dice
/// when the hit asks for it), and the source may take aim. Each step is
/// logged.
#[verifier::rlimit(60)]
pub fn apply_hit(
    rng: &mut StdRng,
    target: &mut Combatant,
    damage: Damage,
    source_position: Option<Point>,
    source: Option<&mut Combatant>,
    knockback_clear: bool,
    log: &mut Log,
) -> (r: Option<RolledDamage>)
    requires
        old(target).statuses.wf(),
        source matches Some(s) ==> s.statuses.wf(),
        !old(target).statuses@.contains_key(StatusKind::Flying) ==> {
            &&& old(target).defenses.can_take(damage, extra_armor(old(target).statuses@))
            &&& is_trait(old(target).statuses@, StatusKind::StaticCharge) ==> !has_option(
                damage.options,
                DamageOptions::CONSUMES_CHARGE_DMG,
            ) && !(has_option(damage.options, DamageOptions::CONSUMES_CHARGE_KNOCKBACK) && !has_option(
                damage.options,
                DamageOptions::KNOCKBACK,
            ))
            &&& (has_option(damage.options, DamageOptions::KNOCKBACK) || has_option(
                damage.options,
                DamageOptions::CONSUMES_CHARGE_KNOCKBACK,
            ) && old(target).statuses@.contains_key(StatusKind::StaticCharge)) && knockback_clear ==> (
            source_position matches Some(p) ==> knockback_in_range(p, old(target).position))
        },
    ensures
        old(target).statuses@.contains_key(StatusKind::Flying) ==> {
            &&& r is None
            &&& *final(target) == *old(target)
            &&& final(log).logs@ == old(log).logs@
            &&& source matches Some(s) ==> *final(s) == *s
        },
        !old(target).statuses@.contains_key(StatusKind::Flying) ==> (r matches Some(rolled) && hit_outcome(
            *old(target),
            *final(target),
            match source {
                Some(s) => Some(*s),
                None => None,
            },
            match source {
                Some(s) => Some(*final(s)),
                None => None,
            },
            old(log).logs@,
            final(log).logs@,
            damage,
            source_position,
            knockback_clear,
            rolled,
        )),
{
    if target.statuses.has(StatusKind::Flying) {
        return None;
    }
    let rolled = land_hit(rng, target, damage, log);
    let charged = target.statuses.has(StatusKind::StaticCharge);
    let aimed = match &source {
        Some(s) => Some(s.statuses.has(StatusKind::Aimed)),
        None => None,
    };
    let reactions = damage_reactions(&rolled.options, charged, aimed);
    let ghost s0 = target.statuses@;
    if reactions.knockback_uses_charge {
        target.statuses.remove_status(StatusKind::StaticCharge);
    }
    let ghost s1 = target.statuses@;
    assert(!reactions.knockback_uses_charge ==> s1 == s0);
    if reactions.knockback && knockback_clear {
        if let Some(p) = source_position {
            if let Some(np) = knockback_destination(&p, &target.position) {
                let line = concat2(target.name.as_str(), " is knocked back.");
                log.add(line.as_str());
                begin_move(target, np, PostMoveAction::CheckNewLocationDamage);
            }
        }
    }
    if reactions.add_charge {
        let line = concat2(target.name.as_str(), " crackles with static electricity.");
        log.add(line.as_str());
        assert(s1 =~= s0.remove(StatusKind::StaticCharge));
        target.statuses.add_status(StatusKind::StaticCharge, STATUS_LENGTH);
    }
    let ghost s2 = target.statuses@;
    let ghost mid = target.defenses;
    let ghost mut charge_amount: u32 = 0;
    if reactions.charge_damage {
        let charge = Damage::init(STATIC_CHARGE_DAMAGE, DamageElement::PHYSICAL).with_option(DamageOptions::PIERCE_DEFENSES);
        assert(0u32 | DamageOptions::PIERCE_DEFENSES == DamageOptions::PIERCE_DEFENSES) by (bit_vector);
        assert(charge == charge_damage());
        let charge_rolled = land_hit(rng, target, charge, log);
        proof {
            charge_amount = charge_rolled.amount;
        }
        target.statuses.remove_status(StatusKind::StaticCharge);
        assert(target.statuses@ =~= s0.remove(StatusKind::StaticCharge));
        assert(hit_taken(mid, target.defenses, charge_damage(), extra_armor(old(target).statuses@), charge_rolled));
    } else if reactions.add_charge {
        assert(s2.remove(StatusKind::StaticCharge) =~= s0.remove(StatusKind::StaticCharge));
    } else if reactions.knockback_uses_charge {
        assert(s2 =~= s0.remove(StatusKind::StaticCharge));
    }
    if reactions.aim_source {
        match source {
            Some(s) => {
                let line = concat2(s.name.as_str(), " takes aim.");
                log.add(line.as_str());
                s.statuses.add_status(StatusKind::Aimed, STATUS_LENGTH);
            },
            None => {},
        }
    }
    Some(rolled)
}

/// Whether the hits of `damage` can all be taken by a target with the
/// statuses `statuses`, the defenses `defenses` and the position `position`:
/// the rolls fit, a static charge held as a trait is never used up, and a
/// knockback that can happen stays within `i32` arithmetic.
pub open spec fn hits_can_land(
    statuses: Map<StatusKind, StatusType>,
    defenses: Defenses,
    position: SizedPoint,
    damage: Damage,
    source_position: Option<Point>,
    knockback_clear: bool,
) -> bool {
    let options = damage.options;
    let charged = statuses.contains_key(StatusKind::StaticCharge);
    &&& defenses.can_take(damage, extra_armor(statuses))
    &&& is_trait(statuses, StatusKind::StaticCharge) ==> !has_option(options, DamageOptions::CONSUMES_CHARGE_DMG) && !(
    has_option(options, DamageOptions::CONSUMES_CHARGE_KNOCKBACK) && !has_option(options, DamageOptions::KNOCKBACK))
    &&& spec_may_knock_back(options, charged) && knockback_clear ==> (source_position matches Some(p) ==> knockback_in_range(
        p,
        position,
    ))
}

/// Whether some hit of an attack with `options` can knock back a target
/// that carries a static charge or not: a plain knockback, or one that uses
/// up a charge the target holds or that an earlier hit of a triple shot
/// gives it without using it up.
pub open spec fn spec_may_knock_back(options: DamageOptions, charged: bool) -> bool {
    let may_charge = has_option(options, DamageOptions::ADD_CHARGE_STATUS) && !has_option(options, DamageOptions::CONSUMES_CHARGE_DMG)
        && has_option(options, DamageOptions::TRIPLE_SHOT);
    has_option(options, DamageOptions::KNOCKBACK) || has_option(options, DamageOptions::CONSUMES_CHARGE_KNOCKBACK) && (charged
        || may_charge)
}

/// Whether an attack with `options` can knock back its target, which is
/// flying or not and carries a static charge or not. A flying target is
/// never hit, so never knocked back.
pub fn may_knock_back(options: &DamageOptions, flying: bool, charged: bool) -> (r: bool)
    ensures
        r == (!flying && spec_may_knock_back(*options, charged)),
{
    if flying {
        return false;
    }
    let adds_charge = options.contains(DamageOptions::from_bits(DamageOptions::ADD_CHARGE_STATUS));
    let uses_charge = options.contains(DamageOptions::from_bits(DamageOptions::CONSUMES_CHARGE_DMG));
    let triple = options.contains(DamageOptions::from_bits(DamageOptions::TRIPLE_SHOT));
    let may_charge = adds_charge && !uses_charge && triple;
    options.contains(DamageOptions::from_bits(DamageOptions::KNOCKBACK)) || options.contains(
        DamageOptions::from_bits(DamageOptions::CONSUMES_CHARGE_KNOCKBACK),
    ) && (charged || may_charge)
}

/// A hit keeps what the next hit of the same attack needs: the target's
/// statuses other than its static charge, its position, its armor and
/// resistances; a static charge held as a trait stays; a charge it did not
/// hold before comes only from a hit that adds one and does not use it up.
pub proof fn lemma_hit_keeps(
    before: Combatant,
    after: Combatant,
    src_before: Option<Combatant>,
    src_after: Option<Combatant>,
    log_before: Seq<String>,
    log_after: Seq<String>,
    damage: Damage,
    source_position: Option<Point>,
    knockback_clear: bool,
    rolled: RolledDamage,
)
    requires
        hit_outcome(before, after, src_before, src_after, log_before, log_after, damage, source_position, knockback_clear, rolled),
    ensures
        after.statuses.wf(),
        after.position == before.position,
        after.defenses.armor == before.defenses.armor,
        after.defenses.resistances == before.defenses.resistances,
        forall|k: StatusKind| k != StatusKind::StaticCharge ==> (#[trigger] after.statuses@.contains_key(k)
            == before.statuses@.contains_key(k)),
        is_trait(after.statuses@, StatusKind::StaticCharge) ==> after.statuses@ == before.statuses@,
        after.statuses@.contains_key(StatusKind::StaticCharge) ==> before.statuses@.contains_key(StatusKind::StaticCharge) || (
        has_option(damage.options, DamageOptions::ADD_CHARGE_STATUS) && !has_option(damage.options, DamageOptions::CONSUMES_CHARGE_DMG)),
        src_after is Some == src_before is Some,
        src_after is Some ==> src_after->0.statuses.wf(),
{
    let armor = extra_armor(before.statuses@);
    let charged = before.statuses@.contains_key(StatusKind::StaticCharge);
    let aimed = match src_before {
        Some(s) => Some(s.statuses@.contains_key(StatusKind::Aimed)),
        None => None,
    };
    let reactions = spec_reactions(damage.options, charged, aimed);
    let b = before.statuses@;
    let a = after.statuses@;
    if reactions.charge_damage {
        let (mid, charge) = choose|mid: Defenses, charge: RolledDamage|
            #![trigger hit_taken(mid, after.defenses, charge_damage(), armor, charge)]
            hit_taken(before.defenses, mid, damage, armor, rolled) && hit_taken(mid, after.defenses, charge_damage(), armor, charge)
                && string_views(log_after) =~= string_views(log_before) + hit_log(
                before.name@,
                damage,
                rolled.amount,
                reactions,
                knocked_to(reactions, source_position, before.position, knockback_clear) is Some,
                charge.amount,
                match src_before {
                    Some(s) => s.name@,
                    None => Seq::empty(),
                },
            );
        assert(hit_taken(mid, after.defenses, charge_damage(), armor, charge));
    }
    assert forall|k: StatusKind| k != StatusKind::StaticCharge implies (#[trigger] a.contains_key(k) == b.contains_key(k)) by {
        if reactions.charge_damage || (reactions.knockback_uses_charge && !reactions.add_charge) {
            assert(a == b.remove(StatusKind::StaticCharge));
        } else if reactions.add_charge {
            assert(a.remove(StatusKind::StaticCharge).contains_key(k) == a.contains_key(k));
            assert(b.remove(StatusKind::StaticCharge).contains_key(k) == b.contains_key(k));
        }
    }
}

/// Applies `damage` to `target` as many times as it lands (three times for
/// a triple shot, once otherwise), coming from `source_position` where
/// `source` stands, if anyone does; `knockback_clear` tells whether the tiles
/// the target would be knocked back to are free. A knockback only begins a
/// move, so the target stands in one place through the whole attack. Each
/// hit that lands is returned, in order.
pub fn apply_damage_to_character(
    rng: &mut StdRng,
    target: &mut Combatant,
    damage: Damage,
    source_position: Option<Point>,
    source: &mut Option<Combatant>,
    knockback_clear: bool,
    log: &mut Log,
) -> (r: Vec<RolledDamage>)
    requires
        old(target).statuses.wf(),
        *old(source) matches Some(s) ==> s.statuses.wf(),
        !old(target).statuses@.contains_key(StatusKind::Flying) ==> hits_can_land(
            old(target).statuses@,
            old(target).defenses,
            old(target).position,
            damage,
            source_position,
            knockback_clear,
        ),
    ensures
        old(target).statuses@.contains_key(StatusKind::Flying) ==> {
            &&& r@.len() == 0
            &&& *final(target) == *old(target)
            &&& final(log).logs@ == old(log).logs@
            &&& *final(source) == *old(source)
        },
        !old(target).statuses@.contains_key(StatusKind::Flying) ==> {
            &&& r@.len() == if has_option(damage.options, DamageOptions::TRIPLE_SHOT) { 3int } else { 1int }
            &&& exists|ts: Seq<Combatant>, ss: Seq<Option<Combatant>>, ls: Seq<Seq<String>>|
                #![trigger ts.len(), ss.len(), ls.len()]
                ts.len() == r@.len() + 1 && ss.len() == r@.len() + 1 && ls.len() == r@.len() + 1 && ts[0] == *old(target)
                    && ts.last() == *final(target) && ss[0] == *old(source) && ss.last() == *final(source) && ls[0] == old(log).logs@ && ls.last() == final(log).logs@ && forall|j: int|
                    0 <= j < r@.len() ==> #[trigger] hit_outcome(
                        ts[j],
                        ts[j + 1],
                        ss[j],
                        ss[j + 1],
                        ls[j],
                        ls[j + 1],
                        damage,
                        source_position,
                        knockback_clear,
                        r@[j],
                    )
        },
{
    let count = hit_count(&damage);
    let ghost flying = target.statuses@.contains_key(StatusKind::Flying);
    let ghost t0 = *target;
    let ghost charged0 = target.statuses@.contains_key(StatusKind::StaticCharge);
    let ghost mut ts: Seq<Combatant> = seq![*target];
    let ghost mut ss: Seq<Option<Combatant>> = seq![*source];
    let ghost mut ls: Seq<Seq<String>> = seq![log.logs@];
    let mut rolled: Vec<RolledDamage> = Vec::new();
    let mut i: u32 = 0;
    while i < count
        invariant
            i <= count,
            count == if has_option(damage.options, DamageOptions::TRIPLE_SHOT) { 3int } else { 1int },
            flying == t0.statuses@.contains_key(StatusKind::Flying),
            charged0 == t0.statuses@.contains_key(StatusKind::StaticCharge),
            ts.len() == i + 1 && ss.len() == i + 1 && ls.len() == i + 1,
            ts[0] == t0,
            t0 == *old(target),
            ls[0] == old(log).logs@,
            ts[i as int] == *target,
            ss[i as int] == *source,
            ss[0] == *old(source),
            ls[i as int] == log.logs@,
            target.statuses.wf(),
            *source matches Some(s) ==> s.statuses.wf(),
            flying ==> rolled@.len() == 0 && *target == t0 && ls[i as int] == ls[0] && ss[i as int] == ss[0],
            !flying ==> {
                &&& rolled@.len() == i
                &&& !target.statuses@.contains_key(StatusKind::Flying)
                &&& target.position == t0.position
                &&& target.defenses.armor == t0.defenses.armor
                &&& target.defenses.resistances == t0.defenses.resistances
                &&& target.defenses.wf()
                &&& extra_armor(target.statuses@) == extra_armor(t0.statuses@)
                &&& is_trait(target.statuses@, StatusKind::StaticCharge) ==> is_trait(t0.statuses@, StatusKind::StaticCharge)
                &&& target.statuses@.contains_key(StatusKind::StaticCharge) ==> charged0 || (i >= 1 && has_option(
                    damage.options,
                    DamageOptions::ADD_CHARGE_STATUS,
                ) && !has_option(damage.options, DamageOptions::CONSUMES_CHARGE_DMG))
                &&& hits_can_land(t0.statuses@, t0.defenses, t0.position, damage, source_position, knockback_clear)
                &&& forall|j: int|
                    0 <= j < i ==> #[trigger] hit_outcome(
                        ts[j],
                        ts[j + 1],
                        ss[j],
                        ss[j + 1],
                        ls[j],
                        ls[j + 1],
                        damage,
                        source_position,
                        knockback_clear,
                        rolled@[j],
                    )
            },
        decreases count - i,
    {
        let ghost prev_t = *target;
        let ghost prev_s = *source;
        let ghost prev_l = log.logs@;
        let ghost prev_rolled = rolled@;
        let s = source.as_mut();
        proof {
            if !flying {
                assert(target.defenses.can_take(damage, extra_armor(target.statuses@)));
                if i >= 1 {
                    assert(has_option(damage.options, DamageOptions::TRIPLE_SHOT));
                }
            }
        }
        let hit = apply_hit(rng, target, damage, source_position, s, knockback_clear, log);
        match hit {
            Some(h) => rolled.push(h),
            None => {},
        }
        proof {
            ts = ts.push(*target);
            ss = ss.push(*source);
            ls = ls.push(log.logs@);
            if !flying {
                let h = rolled@[i as int];
                assert(hit_outcome(prev_t, *target, prev_s, *source, prev_l, log.logs@, damage, source_position, knockback_clear, h));
                lemma_hit_keeps(prev_t, *target, prev_s, *source, prev_l, log.logs@, damage, source_position, knockback_clear, h);
                assert(target.statuses@.contains_key(StatusKind::Armored) == prev_t.statuses@.contains_key(StatusKind::Armored));
                assert(target.statuses@.contains_key(StatusKind::Flying) == prev_t.statuses@.contains_key(StatusKind::Flying));
                assert forall|j: int| 0 <= j < i + 1 implies #[trigger] hit_outcome(
                    ts[j],
                    ts[j + 1],
                    ss[j],
                    ss[j + 1],
                    ls[j],
                    ls[j + 1],
                    damage,
                    source_position,
                    knockback_clear,
                    rolled@[j],
                ) by {
                    if j < i {
                        assert(rolled@[j] == prev_rolled[j]);
                    }
                }
            }
        }
        i = i + 1;
    }
    rolled
}

} // verus!
