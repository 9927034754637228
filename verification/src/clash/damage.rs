use vstd::prelude::*;

use crate::atlas::direction::{as_i32, spec_clamp_to_one, spec_constrained_point, Direction};
use crate::atlas::point::{Point, SizedPoint};
use crate::clash::strength::Strength;

verus! {

/// A set of flags modifying how a hit is applied, held as bits.
#[derive(Clone, Copy, PartialEq, Eq, Structural)]
pub struct DamageOptions {
    pub bits: u32,
}

impl DamageOptions {
    /// Raises the target's temperature.
    pub const RAISE_TEMPERATURE: u32 = 0b00000000_00000001;
    /// Lowers the target's temperature.
    pub const LOWER_TEMPERATURE: u32 = 0b00000000_00000010;
    /// Changes the temperature four times as much.
    pub const LARGE_TEMPERATURE_DELTA: u32 = 0b00000000_00000100;
    /// Knocks the target back.
    pub const KNOCKBACK: u32 = 0b00000000_00001000;
    /// Gives the target a static charge.
    pub const ADD_CHARGE_STATUS: u32 = 0b00000000_00010000;
    /// Consumes a static charge for extra damage.
    pub const CONSUMES_CHARGE_DMG: u32 = 0b00000000_00100000;
    /// Consumes a static charge to knock back.
    pub const CONSUMES_CHARGE_KNOCKBACK: u32 = 0b00000000_01000000;
    /// Ignores dodge, armor and resistances.
    pub const PIERCE_DEFENSES: u32 = 0b00000000_10000000;
    /// Hits three times.
    pub const TRIPLE_SHOT: u32 = 0b00000001_00000000;
    /// Makes the attacker take aim.
    pub const AIMED_SHOT: u32 = 0b00000010_00000000;

    /// The options whose bits are `bits` (the constants above).
    pub fn from_bits(bits: u32) -> (r: DamageOptions)
        ensures
            r.bits == bits,
    {
        DamageOptions { bits }
    }

    /// No option.
    pub fn empty() -> (r: DamageOptions)
        ensures
            r.bits == 0,
    {
        DamageOptions { bits: 0 }
    }

    /// Whether every option of `other` is set.
    pub fn contains(&self, other: DamageOptions) -> (r: bool)
        ensures
            r == (self.bits & other.bits == other.bits),
    {
        self.bits & other.bits == other.bits
    }

    /// Sets every option of `other`.
    pub fn insert(&mut self, other: DamageOptions)
        ensures
            final(self).bits == old(self).bits | other.bits,
    {
        self.bits = self.bits | other.bits;
    }
}

/// After inserting options they are all set, and every option set before is
/// still set.
pub proof fn lemma_insert_contains(before: u32, inserted: u32, kept: u32)
    ensures
        (before | inserted) & inserted == inserted,
        before & kept == kept ==> (before | inserted) & kept == kept,
{
    assert((before | inserted) & inserted == inserted) by (bit_vector);
    assert(before & kept == kept ==> (before | inserted) & kept == kept) by (bit_vector);
}


/// The kinds of damage a hit can carry, held as bits (a hit may carry several).
#[derive(Clone, Copy, PartialEq, Eq, Structural, Debug)]
pub struct DamageElement {
    pub bits: u32,
}

/// The single-kind flags, in the order hits are split into their kinds.
pub open spec fn element_flags() -> Seq<u32> {
    seq![1u32, 2u32, 4u32, 8u32, 16u32]
}

/// The single-kind flags of `bits` among `element_flags()[i..]`, in order.
pub open spec fn spec_components_from(bits: u32, i: int) -> Seq<u32>
    decreases 5 - i,
{
    if i >= 5 || i < 0 {
        Seq::empty()
    } else {
        let f = element_flags()[i];
        let rest = spec_components_from(bits, i + 1);
        if bits & f != 0 {
            seq![f] + rest
        } else {
            rest
        }
    }
}

impl DamageElement {
    /// Physical damage, which armor soaks.
    pub const PHYSICAL: u32 = 0b00001;
    /// Fire damage.
    pub const FIRE: u32 = 0b00010;
    /// Lightning damage.
    pub const LIGHTNING: u32 = 0b00100;
    /// Ice damage.
    pub const ICE: u32 = 0b01000;
    /// Darkness damage.
    pub const DARKNESS: u32 = 0b10000;

    /// The kinds whose bits are `bits` (the constants above, combined with `|`).
    pub fn from_bits(bits: u32) -> (r: DamageElement)
        ensures
            r.bits == bits,
    {
        DamageElement { bits }
    }

    /// The single kinds this damage carries, in flag order.
    pub open spec fn spec_components(self) -> Seq<u32> {
        spec_components_from(self.bits, 0)
    }

    /// The single kinds this damage carries, in flag order.
    pub fn components(&self) -> (r: Vec<DamageElement>)
        ensures
            r@.len() == self.spec_components().len(),
            forall|k: int| 0 <= k < r@.len() ==> (#[trigger] r@[k]).bits == self.spec_components()[k],
    {
        let flags: [u32; 5] = [1, 2, 4, 8, 16];
        let mut found: Vec<DamageElement> = Vec::new();
        let mut i: usize = 5;
        while i > 0
            invariant
                i <= 5,
                flags@ == element_flags(),
                found@.len() == spec_components_from(self.bits, i as int).len(),
                forall|k: int|
                    0 <= k < found@.len() ==> (#[trigger] found@[k]).bits == spec_components_from(
                        self.bits,
                        i as int,
                    )[k],
            decreases i,
        {
            i = i - 1;
            let f = flags[i];
            if self.bits & f != 0 {
                found.insert(0, DamageElement { bits: f });
            }
            assert(spec_components_from(self.bits, i as int) == (if self.bits & f != 0 {
                seq![f] + spec_components_from(self.bits, i + 1)
            } else {
                spec_components_from(self.bits, i + 1)
            }));
        }
        found
    }

    /// How many single kinds this damage carries.
    pub fn count(&self) -> (r: u32)
        ensures
            r == self.spec_components().len(),
    {
        let c = self.components();
        proof {
            lemma_components_len(self.bits, 0);
        }
        c.len() as u32
    }

    /// The kinds of both.
    pub fn union(&self, other: DamageElement) -> (r: DamageElement)
        ensures
            r.bits == self.bits | other.bits,
    {
        DamageElement { bits: self.bits | other.bits }
    }
}

/// There are at most five single kinds.
pub proof fn lemma_components_len(bits: u32, i: int)
    ensures
        spec_components_from(bits, i).len() <= 5,
        0 <= i <= 5 ==> spec_components_from(bits, i).len() <= 5 - i,
    decreases 5 - i,
{
    if 0 <= i < 5 {
        lemma_components_len(bits, i + 1);
    }
}

/// A hit: its strength, its kinds and its options.
#[derive(Clone, Copy)]
pub struct Damage {
    pub amount: Strength,
    pub element: DamageElement,
    pub options: DamageOptions,
}

impl Damage {
    /// A hit of `dice` strength dice of kinds `element`, with no option.
    pub fn init(dice: u32, element: u32) -> (r: Damage)
        ensures
            r.amount.dice == dice,
            r.element.bits == element,
            r.options.bits == 0,
    {
        Damage { amount: Strength::init(dice), element: DamageElement { bits: element }, options: DamageOptions::empty() }
    }

    /// This hit with the options `option` added.
    pub fn with_option(self, option: u32) -> (r: Damage)
        ensures
            r.amount == self.amount,
            r.element == self.element,
            r.options.bits == self.options.bits | option,
    {
        let mut d = self;
        d.options.insert(DamageOptions::from_bits(option));
        d
    }

    /// This hit with `increase` more dice.
    pub fn more_strength(&self, increase: u32) -> (r: Damage)
        requires
            self.amount.dice + increase <= u32::MAX,
        ensures
            r.amount.dice == self.amount.dice + increase,
            r.element == self.element,
            r.options == self.options,
    {
        Damage { amount: Strength::init(self.amount.dice + increase), element: self.element, options: self.options }
    }

    /// The number of strength dice.
    pub fn dice(&self) -> (r: u32)
        ensures
            r == self.amount.dice,
    {
        self.amount.dice
    }
}

/// A hit once rolled and applied: how much each defense absorbed and how
/// much damage got through.
#[derive(Clone, Copy)]
pub struct RolledDamage {
    pub absorbed_by_dodge: u32,
    pub absorbed_by_armor: u32,
    pub absorbed_by_resist: u32,
    pub amount: u32,
    pub options: DamageOptions,
}

impl RolledDamage {
    /// A rolled hit with the given figures and options.
    pub fn init(
        absorbed_by_dodge: u32,
        absorbed_by_armor: u32,
        absorbed_by_resist: u32,
        amount: u32,
        options: &DamageOptions,
    ) -> (r: RolledDamage)
        ensures
            r.absorbed_by_dodge == absorbed_by_dodge,
            r.absorbed_by_armor == absorbed_by_armor,
            r.absorbed_by_resist == absorbed_by_resist,
            r.amount == amount,
            r.options == *options,
    {
        RolledDamage { absorbed_by_dodge, absorbed_by_armor, absorbed_by_resist, amount, options: *options }
    }
}

/// Static charge deals this many dice when consumed.
pub const STATIC_CHARGE_DAMAGE: u32 = 4;

/// Armor added against hits while a character is armored.
pub const ARMORED_ADDITIONAL_ARMOR: u32 = 3;

/// Strength dice added to the next attack of an aimed character.
pub const AIMED_SHOT_ADDITIONAL_STRENGTH: u32 = 2;

/// Strength dice of the heal a regenerating character gets every turn.
pub const HEALTH_REGEN_PER_TICK: u32 = 1;

/// A hit of `dice` dice of kinds `element` with the options `options`.
pub open spec fn spec_damage(dice: u32, element: u32, options: u32) -> Damage {
    Damage { amount: Strength { dice }, element: DamageElement { bits: element }, options: DamageOptions { bits: options } }
}

/// Whether `options` has the option `flag` set.
pub open spec fn has_option(options: DamageOptions, flag: u32) -> bool {
    options.bits & flag == flag
}

/// How many times a hit lands: three times for a triple shot, once otherwise.
pub fn hit_count(damage: &Damage) -> (r: u32)
    ensures
        r == if has_option(damage.options, DamageOptions::TRIPLE_SHOT) {
            3u32
        } else {
            1u32
        },
{
    if damage.options.contains(DamageOptions::from_bits(DamageOptions::TRIPLE_SHOT)) {
        3
    } else {
        1
    }
}

/// What follows a hit on a character besides the damage: whether it is
/// knocked back (and whether that uses up its static charge), whether it
/// gains a static charge, whether a charge is used up for extra piercing
/// damage, and whether the attacker takes aim.
#[derive(Clone, Copy, Debug, PartialEq, Eq, Structural)]
pub struct DamageReactions {
    pub knockback: bool,
    pub knockback_uses_charge: bool,
    pub add_charge: bool,
    pub charge_damage: bool,
    pub aim_source: bool,
}

/// Decides what follows a hit with `options` on a target that carries a
/// static charge or not. `source_aimed` tells, when a character stands where
/// the hit came from, whether it has already taken aim. The steps go in
/// order: knockback (which may use the charge up), then a new charge if the
/// target has none, then extra damage that uses up the charge, then aim.
pub fn damage_reactions(options: &DamageOptions, target_charged: bool, source_aimed: Option<bool>) -> (r: DamageReactions)
    ensures
        r.knockback == (has_option(*options, DamageOptions::KNOCKBACK) || has_option(*options, DamageOptions::CONSUMES_CHARGE_KNOCKBACK)
            && target_charged),
        r.knockback_uses_charge == (!has_option(*options, DamageOptions::KNOCKBACK) && has_option(
            *options,
            DamageOptions::CONSUMES_CHARGE_KNOCKBACK,
        ) && target_charged),
        r.add_charge == (has_option(*options, DamageOptions::ADD_CHARGE_STATUS) && !(target_charged && !r.knockback_uses_charge)),
        r.charge_damage == (has_option(*options, DamageOptions::CONSUMES_CHARGE_DMG) && ((target_charged && !r.knockback_uses_charge)
            || r.add_charge)),
        r.aim_source == (has_option(*options, DamageOptions::AIMED_SHOT) && source_aimed == Some(false)),
{
    let mut charged = target_charged;
    let mut knockback_uses_charge = false;
    let knockback = if options.contains(DamageOptions::from_bits(DamageOptions::KNOCKBACK)) {
        true
    } else if options.contains(DamageOptions::from_bits(DamageOptions::CONSUMES_CHARGE_KNOCKBACK)) && charged {
        knockback_uses_charge = true;
        charged = false;
        true
    } else {
        false
    };
    let add_charge = options.contains(DamageOptions::from_bits(DamageOptions::ADD_CHARGE_STATUS)) && !charged;
    if add_charge {
        charged = true;
    }
    let charge_damage = options.contains(DamageOptions::from_bits(DamageOptions::CONSUMES_CHARGE_DMG)) && charged;
    let aim_source = options.contains(DamageOptions::from_bits(DamageOptions::AIMED_SHOT)) && match source_aimed {
        Some(aimed) => !aimed,
        None => false,
    };
    DamageReactions { knockback, knockback_uses_charge, add_charge, charge_damage, aim_source }
}

/// Where a character at `target` is knocked to by a hit from `source`: one
/// step away from the source (staying put when the source is on the
/// target's origin), or nowhere when that step leaves the map.
pub open spec fn spec_knockback_destination(source: Point, target: SizedPoint) -> Option<SizedPoint> {
    let dx = spec_clamp_to_one(as_i32(target.origin.x) - as_i32(source.x));
    let dy = spec_clamp_to_one(as_i32(target.origin.y) - as_i32(source.y));
    if dx == 0 && dy == 0 {
        Some(target)
    } else {
        match spec_constrained_point(as_i32(target.origin.x) + dx, as_i32(target.origin.y) + dy) {
            Some(o) => Some(SizedPoint { origin: o, width: target.width, height: target.height }),
            None => None,
        }
    }
}

/// Where a character at `target` is knocked to by a hit from `source`.
pub fn knockback_destination(source: &Point, target: &SizedPoint) -> (r: Option<SizedPoint>)
    requires
        i32::MIN <= as_i32(target.origin.x) - as_i32(source.x) <= i32::MAX,
        i32::MIN <= as_i32(target.origin.y) - as_i32(source.y) <= i32::MAX,
        i32::MIN <= as_i32(target.origin.x) + spec_clamp_to_one(as_i32(target.origin.x) - as_i32(source.x)) <= i32::MAX,
        i32::MIN <= as_i32(target.origin.y) + spec_clamp_to_one(as_i32(target.origin.y) - as_i32(source.y)) <= i32::MAX,
    ensures
        r == spec_knockback_destination(*source, *target),
{
    let direction = Direction::from_two_points(source, &target.origin);
    match direction.point_in_direction(&target.origin) {
        Some(new_origin) => Some(target.move_to(new_origin)),
        None => None,
    }
}

} // verus!
