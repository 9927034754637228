use vstd::prelude::*;

use crate::assoc::{distinct_keys, has_key, key_map, lemma_key_map_index, lemma_key_map_push, lemma_key_map_update};
use crate::text::{decimal_string, spec_decimal, str_equal};

verus! {

/// How rare a piece of equipment is.
#[derive(Hash, Debug, Clone, Copy, Eq, PartialEq, Structural)]
pub enum EquipmentRarity {
    Standard,
    Common,
    Uncommon,
    Rare,
}

/// The slot kinds equipment goes in.
#[derive(Hash, Debug, Clone, Copy, Eq, PartialEq, Structural)]
pub enum EquipmentKinds {
    Weapon,
    Armor,
    Accessory,
    Mastery,
}

impl EquipmentKinds {
    /// The name of the kind as shown in text.
    pub open spec fn spec_name(self) -> Seq<char> {
        match self {
            EquipmentKinds::Weapon => "Weapon"@,
            EquipmentKinds::Armor => "Armor"@,
            EquipmentKinds::Accessory => "Accessory"@,
            EquipmentKinds::Mastery => "Mastery"@,
        }
    }

    /// The name of the kind as shown in text.
    pub fn name(&self) -> (r: &'static str)
        ensures
            r@ == self.spec_name(),
    {
        match self {
            EquipmentKinds::Weapon => "Weapon",
            EquipmentKinds::Armor => "Armor",
            EquipmentKinds::Accessory => "Accessory",
            EquipmentKinds::Mastery => "Mastery",
        }
    }
}

/// What a piece of equipment does.
#[derive(Hash, PartialEq, Eq, Clone, Debug)]
pub enum EquipmentEffect {
    NoEffect,
    /// Example: Triple Shot on Gunslinger
    UnlocksAbilityClass(String),
    /// Example: AmmoType Inferno
    UnlocksAbilityMode(String),
    /// Applies to the range of every weapon skill
    ModifiesWeaponRange(i32),
    /// Applies to the range of one class of skill
    ModifiesSkillRange(i32, String),
    /// Applies to the strength of every weapon skill
    ModifiesWeaponStrength(i32),
    /// Applies to the strength of one class of skill
    ModifiesSkillStrength(i32, String),
    /// Example: -1 max bullets
    ModifiesResourceTotal(i32, String),
    ModifiesDodge(i32),
    ModifiesArmor(i32),
    ModifiesAbsorb(i32),
    ModifiesMaxHealth(i32),
}

/// The line describing an effect, if it has one.
pub open spec fn spec_effect_text(e: EquipmentEffect) -> Option<Seq<char>> {
    match e {
        EquipmentEffect::NoEffect => None,
        EquipmentEffect::UnlocksAbilityClass(kind) => Some("Unlocks "@ + kind@ + "."@),
        EquipmentEffect::UnlocksAbilityMode(kind) => Some("Unlocks "@ + kind@ + " abilities."@),
        EquipmentEffect::ModifiesWeaponRange(range) => Some("Weapon Range: "@ + spec_decimal(range as int)),
        EquipmentEffect::ModifiesSkillRange(range, kind) => Some(kind@ + " Range: "@ + spec_decimal(range as int) + "."@),
        EquipmentEffect::ModifiesWeaponStrength(amount) => Some("Weapon Strength: "@ + spec_decimal(amount as int) + "."@),
        EquipmentEffect::ModifiesSkillStrength(amount, kind) => Some(kind@ + " Strength: "@ + spec_decimal(amount as int) + "."@),
        EquipmentEffect::ModifiesResourceTotal(amount, kind) => Some("Maximum "@ + kind@ + ": "@ + spec_decimal(amount as int) + "."@),
        EquipmentEffect::ModifiesDodge(amount) => Some("Dodge: "@ + spec_decimal(amount as int) + "."@),
        EquipmentEffect::ModifiesArmor(amount) => Some("Armor: "@ + spec_decimal(amount as int) + "."@),
        EquipmentEffect::ModifiesAbsorb(amount) => Some("Absorb: "@ + spec_decimal(amount as int) + "."@),
        EquipmentEffect::ModifiesMaxHealth(amount) => Some("Health: "@ + spec_decimal(amount as int) + "."@),
    }
}

/// The lines describing a list of effects, in order (effects without text
/// are skipped).
pub open spec fn spec_effects_text(effects: Seq<EquipmentEffect>) -> Seq<Seq<char>>
    decreases effects.len(),
{
    if effects.len() == 0 {
        Seq::empty()
    } else {
        let rest = spec_effects_text(effects.drop_last());
        match spec_effect_text(effects.last()) {
            Some(t) => rest.push(t),
            None => rest,
        }
    }
}

/// `a + b + c` of three strings.
fn join3(a: &str, b: &str, c: &str) -> (r: String)
    ensures
        r@ == a@ + b@ + c@,
{
    let mut out = String::from_str(a);
    out.append(b);
    out.append(c);
    out
}

impl EquipmentEffect {
    /// A copy of this effect.
    pub fn duplicate(&self) -> (r: EquipmentEffect)
        ensures
            r == *self,
    {
        match self {
            EquipmentEffect::NoEffect => EquipmentEffect::NoEffect,
            EquipmentEffect::UnlocksAbilityClass(s) => EquipmentEffect::UnlocksAbilityClass(s.clone()),
            EquipmentEffect::UnlocksAbilityMode(s) => EquipmentEffect::UnlocksAbilityMode(s.clone()),
            EquipmentEffect::ModifiesWeaponRange(v) => EquipmentEffect::ModifiesWeaponRange(*v),
            EquipmentEffect::ModifiesSkillRange(v, s) => EquipmentEffect::ModifiesSkillRange(*v, s.clone()),
            EquipmentEffect::ModifiesWeaponStrength(v) => EquipmentEffect::ModifiesWeaponStrength(*v),
            EquipmentEffect::ModifiesSkillStrength(v, s) => EquipmentEffect::ModifiesSkillStrength(*v, s.clone()),
            EquipmentEffect::ModifiesResourceTotal(v, s) => EquipmentEffect::ModifiesResourceTotal(*v, s.clone()),
            EquipmentEffect::ModifiesDodge(v) => EquipmentEffect::ModifiesDodge(*v),
            EquipmentEffect::ModifiesArmor(v) => EquipmentEffect::ModifiesArmor(*v),
            EquipmentEffect::ModifiesAbsorb(v) => EquipmentEffect::ModifiesAbsorb(*v),
            EquipmentEffect::ModifiesMaxHealth(v) => EquipmentEffect::ModifiesMaxHealth(*v),
        }
    }

    /// The line describing this effect, if it has one.
    pub fn text(&self) -> (r: Option<String>)
        ensures
            r matches Some(s) ==> spec_effect_text(*self) == Some(s@),
            r is None ==> spec_effect_text(*self) is None,
    {
        match self {
            EquipmentEffect::NoEffect => None,
            EquipmentEffect::UnlocksAbilityClass(kind) => Some(join3("Unlocks ", kind.as_str(), ".")),
            EquipmentEffect::UnlocksAbilityMode(kind) => Some(join3("Unlocks ", kind.as_str(), " abilities.")),
            EquipmentEffect::ModifiesWeaponRange(range) => {
                let mut out = String::from_str("Weapon Range: ");
                out.append(decimal_string(*range).as_str());
                Some(out)
            },
            EquipmentEffect::ModifiesSkillRange(range, kind) => {
                let mut out = join3(kind.as_str(), " Range: ", decimal_string(*range).as_str());
                out.append(".");
                Some(out)
            },
            EquipmentEffect::ModifiesWeaponStrength(amount) => Some(
                join3("Weapon Strength: ", decimal_string(*amount).as_str(), "."),
            ),
            EquipmentEffect::ModifiesSkillStrength(amount, kind) => {
                let mut out = join3(kind.as_str(), " Strength: ", decimal_string(*amount).as_str());
                out.append(".");
                Some(out)
            },
            EquipmentEffect::ModifiesResourceTotal(amount, kind) => {
                let mut out = join3("Maximum ", kind.as_str(), ": ");
                out.append(decimal_string(*amount).as_str());
                out.append(".");
                Some(out)
            },
            EquipmentEffect::ModifiesDodge(amount) => Some(join3("Dodge: ", decimal_string(*amount).as_str(), ".")),
            EquipmentEffect::ModifiesArmor(amount) => Some(join3("Armor: ", decimal_string(*amount).as_str(), ".")),
            EquipmentEffect::ModifiesAbsorb(amount) => Some(join3("Absorb: ", decimal_string(*amount).as_str(), ".")),
            EquipmentEffect::ModifiesMaxHealth(amount) => Some(join3("Health: ", decimal_string(*amount).as_str(), ".")),
        }
    }
}

/// A piece of equipment.
#[derive(Hash, PartialEq, Eq, Clone, Debug)]
pub struct EquipmentItem {
    pub name: String,
    pub image: Option<String>,
    pub kind: EquipmentKinds,
    pub effect: Vec<EquipmentEffect>,
    pub rarity: EquipmentRarity,
}

/// Whether two items hold the same name, image, kind, effects and rarity.
pub open spec fn same_item(a: EquipmentItem, b: EquipmentItem) -> bool {
    &&& a.name@ == b.name@
    &&& a.image.is_some() == b.image.is_some()
    &&& a.image.is_some() ==> a.image.unwrap()@ == b.image.unwrap()@
    &&& a.kind == b.kind
    &&& a.effect@ == b.effect@
    &&& a.rarity == b.rarity
}

/// Whether two optional items are both empty or hold the same item.
pub open spec fn same_slot(a: Option<EquipmentItem>, b: Option<EquipmentItem>) -> bool {
    match (a, b) {
        (Some(x), Some(y)) => same_item(x, y),
        (None, None) => true,
        _ => false,
    }
}

/// Whether two slot lists match slot by slot.
pub open spec fn same_slots(a: Seq<Option<EquipmentItem>>, b: Seq<Option<EquipmentItem>>) -> bool {
    a.len() == b.len() && forall|k: int| 0 <= k < a.len() ==> same_slot(#[trigger] a[k], b[k])
}

/// A copy of a list of effects.
fn duplicate_effects(effects: &[EquipmentEffect]) -> (r: Vec<EquipmentEffect>)
    ensures
        r@ == effects@,
{
    let mut out: Vec<EquipmentEffect> = Vec::new();
    let mut k: usize = 0;
    while k < effects.len()
        invariant
            k <= effects@.len(),
            out@ == effects@.take(k as int),
        decreases effects@.len() - k,
    {
        out.push(effects[k].duplicate());
        k = k + 1;
        assert(out@ =~= effects@.take(k as int));
    }
    assert(effects@.take(k as int) =~= effects@);
    out
}

impl EquipmentItem {
    /// An item with the given name, image, kind, rarity and effects.
    pub fn init(
        name: &str,
        image: Option<&str>,
        kind: EquipmentKinds,
        rarity: EquipmentRarity,
        effect: &[EquipmentEffect],
    ) -> (r: EquipmentItem)
        ensures
            r.name@ == name@,
            r.image.is_some() == image.is_some(),
            image.is_some() ==> r.image.unwrap()@ == image.unwrap()@,
            r.kind == kind,
            r.rarity == rarity,
            r.effect@ == effect@,
    {
        EquipmentItem {
            name: String::from_str(name),
            image: match image {
                Some(i) => Some(String::from_str(i)),
                None => None,
            },
            kind,
            effect: duplicate_effects(effect),
            rarity,
        }
    }

    /// A copy of this item.
    pub fn duplicate(&self) -> (r: EquipmentItem)
        ensures
            same_item(r, *self),
    {
        EquipmentItem {
            name: self.name.clone(),
            image: match &self.image {
                Some(i) => Some(i.clone()),
                None => None,
            },
            kind: self.kind,
            effect: duplicate_effects(self.effect.as_slice()),
            rarity: self.rarity,
        }
    }

    /// One line per effect that has text, in order.
    pub fn description(&self) -> (r: Vec<String>)
        ensures
            r@.map_values(|s: String| s@) == spec_effects_text(self.effect@),
    {
        let mut description: Vec<String> = Vec::new();
        let mut k: usize = 0;
        while k < self.effect.len()
            invariant
                k <= self.effect@.len(),
                description@.map_values(|s: String| s@) == spec_effects_text(self.effect@.take(k as int)),
            decreases self.effect@.len() - k,
        {
            let ghost before = description@;
            assert(self.effect@.take(k + 1).drop_last() == self.effect@.take(k as int));
            if let Some(line) = self.effect[k].text() {
                description.push(line);
                assert(description@.map_values(|s: String| s@) =~= before.map_values(|s: String| s@).push(line@));
            }
            k = k + 1;
        }
        assert(self.effect@.take(k as int) =~= self.effect@);
        description
    }
}

/// A copy of an optional item.
fn duplicate_slot(slot: &Option<EquipmentItem>) -> (r: Option<EquipmentItem>)
    ensures
        same_slot(r, *slot),
{
    match slot {
        Some(item) => Some(item.duplicate()),
        None => None,
    }
}

/// `n` empty slots.
fn empty_slots(n: u32) -> (r: Vec<Option<EquipmentItem>>)
    ensures
        r@.len() == n,
        forall|k: int| 0 <= k < n ==> #[trigger] r@[k] is None,
{
    let mut slots: Vec<Option<EquipmentItem>> = Vec::new();
    let mut k: u32 = 0;
    while k < n
        invariant
            k <= n,
            slots@.len() == k,
            forall|j: int| 0 <= j < k ==> #[trigger] slots@[j] is None,
        decreases n - k,
    {
        slots.push(None);
        k = k + 1;
    }
    slots
}

/// Puts `item` in the empty slot `index`; returns whether it could.
fn add_to(store: &mut Vec<Option<EquipmentItem>>, item: EquipmentItem, index: usize) -> (r: bool)
    ensures
        r == (index < old(store)@.len() && old(store)@[index as int] is None),
        r ==> final(store)@ == old(store)@.update(index as int, Some(item)),
        !r ==> final(store)@ == old(store)@,
{
    if index < store.len() {
        if store[index].is_none() {
            store.set(index, Some(item));
            true
        } else {
            false
        }
    } else {
        false
    }
}

/// Empties the occupied slot `index`; returns whether it could.
fn remove_from(store: &mut Vec<Option<EquipmentItem>>, index: usize) -> (r: bool)
    ensures
        r == (index < old(store)@.len() && old(store)@[index as int] is Some),
        r ==> final(store)@ == old(store)@.update(index as int, None),
        !r ==> final(store)@ == old(store)@,
{
    if index < store.len() {
        if store[index].is_some() {
            store.set(index, None);
            true
        } else {
            false
        }
    } else {
        false
    }
}

/// A copy of a slot list.
fn duplicate_slots(store: &Vec<Option<EquipmentItem>>) -> (r: Vec<Option<EquipmentItem>>)
    ensures
        same_slots(r@, store@),
{
    let mut out: Vec<Option<EquipmentItem>> = Vec::new();
    let mut k: usize = 0;
    while k < store.len()
        invariant
            k <= store@.len(),
            out@.len() == k,
            forall|j: int| 0 <= j < k ==> same_slot(#[trigger] out@[j], store@[j]),
        decreases store@.len() - k,
    {
        out.push(duplicate_slot(&store[k]));
        k = k + 1;
    }
    out
}

/// The first slot of `store` holding an item named `name`.
pub open spec fn first_named(store: Seq<Option<EquipmentItem>>, name: Seq<char>, i: int) -> bool {
    &&& 0 <= i < store.len()
    &&& store[i] matches Some(item) && item.name@ == name
    &&& forall|j: int| 0 <= j < i ==> !(#[trigger] store[j] matches Some(item) && item.name@ == name)
}

/// Whether some slot of `store` holds an item named `name`.
pub open spec fn holds_named(store: Seq<Option<EquipmentItem>>, name: Seq<char>) -> bool {
    exists|j: int| 0 <= j < store.len() && (#[trigger] store[j] matches Some(item) && item.name@ == name)
}

/// The index of the first slot holding an item named `name`.
fn find_in(store: &Vec<Option<EquipmentItem>>, name: &str) -> (r: Option<usize>)
    ensures
        r matches Some(i) ==> first_named(store@, name@, i as int),
        r is None ==> !holds_named(store@, name@),
{
    let mut k: usize = 0;
    while k < store.len()
        invariant
            k <= store@.len(),
            forall|j: int| 0 <= j < k ==> !(#[trigger] store@[j] matches Some(item) && item.name@ == name@),
        decreases store@.len() - k,
    {
        if let Some(item) = &store[k] {
            if str_equal(item.name.as_str(), name) {
                return Some(k);
            }
        }
        k = k + 1;
    }
    None
}

/// The slots a character has for each kind of equipment, and which kinds have
/// been extended from the store.
#[derive(Clone, Debug)]
pub struct Equipment {
    weapon: Vec<Option<EquipmentItem>>,
    armor: Vec<Option<EquipmentItem>>,
    accessory: Vec<Option<EquipmentItem>>,
    mastery: Vec<Option<EquipmentItem>>,
    weapon_extended: bool,
    armor_extended: bool,
    accessory_extended: bool,
    mastery_extended: bool,
}

impl Equipment {
    /// The slots of kind `kind`.
    pub closed spec fn slots(&self, kind: EquipmentKinds) -> Seq<Option<EquipmentItem>> {
        match kind {
            EquipmentKinds::Weapon => self.weapon@,
            EquipmentKinds::Armor => self.armor@,
            EquipmentKinds::Accessory => self.accessory@,
            EquipmentKinds::Mastery => self.mastery@,
        }
    }

    /// Whether kind `kind` has been extended from the store.
    closed spec fn extended(&self, kind: EquipmentKinds) -> bool {
        match kind {
            EquipmentKinds::Weapon => self.weapon_extended,
            EquipmentKinds::Armor => self.armor_extended,
            EquipmentKinds::Accessory => self.accessory_extended,
            EquipmentKinds::Mastery => self.mastery_extended,
        }
    }

    /// The kinds that have been extended from the store.
    pub closed spec fn extensions(&self) -> Set<EquipmentKinds> {
        Set::new(|k: EquipmentKinds| self.extended(k))
    }

    /// No slot of any kind.
    pub fn init_empty() -> (r: Equipment)
        ensures
            forall|k: EquipmentKinds| #[trigger] r.slots(k).len() == 0,
            r.extensions() == Set::<EquipmentKinds>::empty(),
    {
        Equipment::init(0, 0, 0, 0)
    }

    /// Empty slots: the given number of each kind.
    pub fn init(weapon_slots: u32, armor_slots: u32, accessory_slots: u32, mastery_slots: u32) -> (r: Equipment)
        ensures
            r.slots(EquipmentKinds::Weapon).len() == weapon_slots,
            r.slots(EquipmentKinds::Armor).len() == armor_slots,
            r.slots(EquipmentKinds::Accessory).len() == accessory_slots,
            r.slots(EquipmentKinds::Mastery).len() == mastery_slots,
            forall|k: EquipmentKinds, i: int| 0 <= i < r.slots(k).len() ==> #[trigger] r.slots(k)[i] is None,
            r.extensions() == Set::<EquipmentKinds>::empty(),
    {
        let r = Equipment {
            weapon: empty_slots(weapon_slots),
            armor: empty_slots(armor_slots),
            accessory: empty_slots(accessory_slots),
            mastery: empty_slots(mastery_slots),
            weapon_extended: false,
            armor_extended: false,
            accessory_extended: false,
            mastery_extended: false,
        };
        assert(r.extensions() =~= Set::<EquipmentKinds>::empty());
        r
    }

    fn get_store(&self, kind: EquipmentKinds) -> (r: &Vec<Option<EquipmentItem>>)
        ensures
            r@ == self.slots(kind),
    {
        match kind {
            EquipmentKinds::Weapon => &self.weapon,
            EquipmentKinds::Armor => &self.armor,
            EquipmentKinds::Accessory => &self.accessory,
            EquipmentKinds::Mastery => &self.mastery,
        }
    }

    /// A copy of the item in slot `index` of kind `kind`; `None` for an empty
    /// or missing slot.
    pub fn get(&self, kind: EquipmentKinds, index: usize) -> (r: Option<EquipmentItem>)
        ensures
            index < self.slots(kind).len() ==> same_slot(r, self.slots(kind)[index as int]),
            index >= self.slots(kind).len() ==> r is None,
    {
        let store = self.get_store(kind);
        if index < store.len() {
            duplicate_slot(&store[index])
        } else {
            None
        }
    }

    /// The number of slots of kind `kind`.
    pub fn count(&self, kind: EquipmentKinds) -> (r: usize)
        ensures
            r == self.slots(kind).len(),
    {
        self.get_store(kind).len()
    }

    /// Puts `item` in slot `index` of kind `kind` if that slot exists and is
    /// empty; returns whether it did.
    pub fn add(&mut self, kind: EquipmentKinds, item: EquipmentItem, index: usize) -> (r: bool)
        ensures
            r == (index < old(self).slots(kind).len() && old(self).slots(kind)[index as int] is None),
            r ==> final(self).slots(kind) == old(self).slots(kind).update(index as int, Some(item)),
            !r ==> final(self).slots(kind) == old(self).slots(kind),
            forall|k: EquipmentKinds| k != kind ==> #[trigger] final(self).slots(k) == old(self).slots(k),
            final(self).extensions() == old(self).extensions(),
    {
        match kind {
            EquipmentKinds::Weapon => add_to(&mut self.weapon, item, index),
            EquipmentKinds::Armor => add_to(&mut self.armor, item, index),
            EquipmentKinds::Accessory => add_to(&mut self.accessory, item, index),
            EquipmentKinds::Mastery => add_to(&mut self.mastery, item, index),
        }
    }

    /// Empties slot `index` of kind `kind` if it exists and holds an item;
    /// returns whether it did.
    pub fn remove(&mut self, kind: EquipmentKinds, index: usize) -> (r: bool)
        ensures
            r == (index < old(self).slots(kind).len() && old(self).slots(kind)[index as int] is Some),
            r ==> final(self).slots(kind) == old(self).slots(kind).update(index as int, None),
            !r ==> final(self).slots(kind) == old(self).slots(kind),
            forall|k: EquipmentKinds| k != kind ==> #[trigger] final(self).slots(k) == old(self).slots(k),
            final(self).extensions() == old(self).extensions(),
    {
        match kind {
            EquipmentKinds::Weapon => remove_from(&mut self.weapon, index),
            EquipmentKinds::Armor => remove_from(&mut self.armor, index),
            EquipmentKinds::Accessory => remove_from(&mut self.accessory, index),
            EquipmentKinds::Mastery => remove_from(&mut self.mastery, index),
        }
    }

    /// Every slot: weapons, then armor, then accessories, then masteries.
    pub fn all(&self) -> (r: Vec<Option<EquipmentItem>>)
        ensures
            same_slots(
                r@,
                self.slots(EquipmentKinds::Weapon) + self.slots(EquipmentKinds::Armor) + self.slots(
                    EquipmentKinds::Accessory,
                ) + self.slots(EquipmentKinds::Mastery),
            ),
    {
        let mut all = duplicate_slots(&self.weapon);
        let mut armor = duplicate_slots(&self.armor);
        let mut accessory = duplicate_slots(&self.accessory);
        let mut mastery = duplicate_slots(&self.mastery);
        let ghost a = all@;
        let ghost b = armor@;
        let ghost c = accessory@;
        let ghost d = mastery@;
        all.append(&mut armor);
        all.append(&mut accessory);
        all.append(&mut mastery);
        proof {
            let target = self.weapon@ + self.armor@ + self.accessory@ + self.mastery@;
            assert(all@ == a + b + c + d);
            assert forall|k: int| 0 <= k < all@.len() implies same_slot(#[trigger] all@[k], target[k]) by {
                if k < a.len() {
                    assert(same_slot(a[k], self.weapon@[k]));
                } else if k < a.len() + b.len() {
                    assert(same_slot(b[k - a.len()], self.armor@[k - a.len()]));
                } else if k < a.len() + b.len() + c.len() {
                    assert(same_slot(c[k - a.len() - b.len()], self.accessory@[k - a.len() - b.len()]));
                } else {
                    assert(same_slot(d[k - a.len() - b.len() - c.len()], self.mastery@[k - a.len() - b.len() - c.len()]));
                }
            }
        }
        all
    }

    /// The kind and index of the first slot holding an item named `name`,
    /// looking at weapons, then armor, accessories and masteries.
    pub open spec fn spec_find(&self, name: Seq<char>) -> Option<(EquipmentKinds, int)> {
        if holds_named(self.slots(EquipmentKinds::Weapon), name) {
            Some((EquipmentKinds::Weapon, choose|i: int| first_named(self.slots(EquipmentKinds::Weapon), name, i)))
        } else if holds_named(self.slots(EquipmentKinds::Armor), name) {
            Some((EquipmentKinds::Armor, choose|i: int| first_named(self.slots(EquipmentKinds::Armor), name, i)))
        } else if holds_named(self.slots(EquipmentKinds::Accessory), name) {
            Some((EquipmentKinds::Accessory, choose|i: int| first_named(self.slots(EquipmentKinds::Accessory), name, i)))
        } else if holds_named(self.slots(EquipmentKinds::Mastery), name) {
            Some((EquipmentKinds::Mastery, choose|i: int| first_named(self.slots(EquipmentKinds::Mastery), name, i)))
        } else {
            None
        }
    }

    /// The kind and index of the first slot holding an item named `name`
    /// (weapons first, then armor, accessories, masteries), if any.
    pub fn find(&self, name: &str) -> (r: Option<(EquipmentKinds, usize)>)
        ensures
            r matches Some((kind, i)) ==> self.spec_find(name@) == Some((kind, i as int)),
            r is None ==> self.spec_find(name@) is None,
    {
        let kinds = [
            EquipmentKinds::Weapon,
            EquipmentKinds::Armor,
            EquipmentKinds::Accessory,
            EquipmentKinds::Mastery,
        ];
        let mut k: usize = 0;
        while k < 4
            invariant
                k <= 4,
                kinds@ == seq![EquipmentKinds::Weapon, EquipmentKinds::Armor, EquipmentKinds::Accessory, EquipmentKinds::Mastery],
                forall|j: int| 0 <= j < k ==> !holds_named(self.slots(#[trigger] kinds@[j]), name@),
            decreases 4 - k,
        {
            let kind = kinds[k];
            let store = self.get_store(kind);
            if let Some(i) = find_in(store, name) {
                proof {
                    assert forall|j: int| first_named(self.slots(kind), name@, j) implies j == i by {
                        if j < i {
                            assert(!(self.slots(kind)[j] matches Some(item) && item.name@ == name@));
                        } else if i < j {
                            assert(!(self.slots(kind)[i as int] matches Some(item) && item.name@ == name@));
                        }
                    }
                    assert(first_named(self.slots(kind), name@, i as int));
                    assert(holds_named(self.slots(kind), name@));
                    if k >= 1 {
                        assert(!holds_named(self.slots(kinds@[0]), name@));
                    }
                    if k >= 2 {
                        assert(!holds_named(self.slots(kinds@[1]), name@));
                    }
                    if k >= 3 {
                        assert(!holds_named(self.slots(kinds@[2]), name@));
                    }
                }
                return Some((kind, i));
            }
            k = k + 1;
        }
        proof {
            assert(!holds_named(self.slots(kinds@[0]), name@));
            assert(!holds_named(self.slots(kinds@[1]), name@));
            assert(!holds_named(self.slots(kinds@[2]), name@));
            assert(!holds_named(self.slots(kinds@[3]), name@));
        }
        None
    }

    /// Whether some slot holds an item named `name`.
    pub fn has(&self, name: &str) -> (r: bool)
        ensures
            r == self.spec_find(name@) is Some,
    {
        self.find(name).is_some()
    }

    /// Whether `after` is `before` extended by one slot of kind `kind`, from
    /// the store or not: a store extension adds a slot only the first time
    /// for each kind.
    pub open spec fn extended_by(before: Equipment, after: Equipment, kind: EquipmentKinds, from_store: bool) -> bool {
        &&& !from_store || !before.extensions().contains(kind) ==> after.slots(kind) == before.slots(kind).push(None)
        &&& from_store && before.extensions().contains(kind) ==> after.slots(kind) == before.slots(kind)
        &&& forall|k: EquipmentKinds| k != kind ==> #[trigger] after.slots(k) == before.slots(k)
        &&& after.extensions() == if from_store {
            before.extensions().insert(kind)
        } else {
            before.extensions()
        }
    }

    fn is_extended(&self, kind: EquipmentKinds) -> (r: bool)
        ensures
            r == self.extensions().contains(kind),
    {
        match kind {
            EquipmentKinds::Weapon => self.weapon_extended,
            EquipmentKinds::Armor => self.armor_extended,
            EquipmentKinds::Accessory => self.accessory_extended,
            EquipmentKinds::Mastery => self.mastery_extended,
        }
    }

    /// Adds one empty slot of kind `kind`. An extension from the store is
    /// granted once per kind: later ones add nothing.
    pub fn extend(&mut self, kind: EquipmentKinds, from_store: bool)
        requires
            old(self).slots(kind).len() < usize::MAX,
        ensures
            Equipment::extended_by(*old(self), *final(self), kind, from_store),
    {
        if !from_store || !self.is_extended(kind) {
            match kind {
                EquipmentKinds::Weapon => self.weapon.push(None),
                EquipmentKinds::Armor => self.armor.push(None),
                EquipmentKinds::Accessory => self.accessory.push(None),
                EquipmentKinds::Mastery => self.mastery.push(None),
            }
            if from_store {
                match kind {
                    EquipmentKinds::Weapon => self.weapon_extended = true,
                    EquipmentKinds::Armor => self.armor_extended = true,
                    EquipmentKinds::Accessory => self.accessory_extended = true,
                    EquipmentKinds::Mastery => self.mastery_extended = true,
                }
            }
        }
        assert(final(self).extensions() =~= if from_store {
            old(self).extensions().insert(kind)
        } else {
            old(self).extensions()
        });
    }

    /// The kinds extended from the store, each once (weapons, armor,
    /// accessories, masteries, in that order).
    pub fn store_extensions(&self) -> (r: Vec<EquipmentKinds>)
        ensures
            r@.no_duplicates(),
            r@.to_set() == self.extensions(),
    {
        let mut out: Vec<EquipmentKinds> = Vec::new();
        if self.weapon_extended {
            push_new_kind(&mut out, EquipmentKinds::Weapon);
        }
        if self.armor_extended {
            push_new_kind(&mut out, EquipmentKinds::Armor);
        }
        if self.accessory_extended {
            push_new_kind(&mut out, EquipmentKinds::Accessory);
        }
        if self.mastery_extended {
            push_new_kind(&mut out, EquipmentKinds::Mastery);
        }
        assert(out@.to_set() =~= self.extensions());
        out
    }
}

/// Appends a kind not yet listed.
fn push_new_kind(out: &mut Vec<EquipmentKinds>, kind: EquipmentKinds)
    requires
        old(out)@.no_duplicates(),
        !old(out)@.to_set().contains(kind),
    ensures
        final(out)@.no_duplicates(),
        final(out)@.to_set() == old(out)@.to_set().insert(kind),
{
    out.push(kind);
    proof {
        old(out)@.lemma_push_to_set_commute(kind);
        assert forall|a: int, b: int| 0 <= a < out@.len() && 0 <= b < out@.len() && a != b implies out@[a] != out@[b] by {
            if a == old(out)@.len() {
                assert(old(out)@.to_set().contains(out@[b]));
            } else if b == old(out)@.len() {
                assert(old(out)@.to_set().contains(out@[a]));
            } else {
                assert(out@[a] == old(out)@[a] && out@[b] == old(out)@[b]);
            }
        }
    }
}

/// The store extends each kind once: a second store extension of the same
/// kind adds nothing, so two of them add exactly one slot in all.
pub proof fn lemma_store_extension_once(e0: Equipment, e1: Equipment, e2: Equipment, kind: EquipmentKinds)
    requires
        !e0.extensions().contains(kind),
        Equipment::extended_by(e0, e1, kind, true),
        Equipment::extended_by(e1, e2, kind, true),
    ensures
        e2.slots(kind) == e0.slots(kind).push(None),
        e2.extensions().contains(kind),
        forall|k: EquipmentKinds| k != kind ==> #[trigger] e2.slots(k) == e0.slots(k),
{
}

/// Putting an item in an empty slot and taking it out again leaves the
/// slots as they were.
pub proof fn lemma_add_then_remove(slots: Seq<Option<EquipmentItem>>, index: int, item: EquipmentItem)
    requires
        0 <= index < slots.len(),
        slots[index] is None,
    ensures
        slots.update(index, Some(item))[index] is Some,
        slots.update(index, Some(item)).update(index, None) == slots,
{
    assert(slots.update(index, Some(item)).update(index, None) =~= slots);
}

/// The catalogue of equipment items, each name at most once.
#[derive(Clone)]
pub struct EquipmentResource {
    equipment: Vec<EquipmentItem>,
}

/// The items of a list keyed by their names.
pub open spec fn named(items: Seq<EquipmentItem>) -> Seq<(Seq<char>, EquipmentItem)> {
    items.map_values(|i: EquipmentItem| (i.name@, i))
}

impl View for EquipmentResource {
    type V = Map<Seq<char>, EquipmentItem>;

    closed spec fn view(&self) -> Map<Seq<char>, EquipmentItem> {
        key_map(named(self.equipment@))
    }
}

impl EquipmentResource {
    /// Whether each name is held at most once.
    pub closed spec fn wf(&self) -> bool {
        distinct_keys(named(self.equipment@))
    }

    /// An empty catalogue.
    pub fn init() -> (r: EquipmentResource)
        ensures
            r.wf(),
            r@ == Map::<Seq<char>, EquipmentItem>::empty(),
    {
        let r = EquipmentResource { equipment: Vec::new() };
        assert(r@ =~= Map::<Seq<char>, EquipmentItem>::empty());
        r
    }

    /// The index of the item named `name`, if held.
    fn find(&self, name: &str) -> (r: Option<usize>)
        requires
            self.wf(),
        ensures
            r matches Some(i) ==> i < self.equipment@.len() && self.equipment@[i as int].name@ == name@ && self@.contains_key(name@)
                && self@[name@] == self.equipment@[i as int],
            r is None ==> !self@.contains_key(name@),
    {
        let mut i: usize = 0;
        while i < self.equipment.len()
            invariant
                self.wf(),
                i <= self.equipment@.len(),
                forall|j: int| 0 <= j < i ==> (#[trigger] self.equipment@[j]).name@ != name@,
            decreases self.equipment@.len() - i,
        {
            if str_equal(self.equipment[i].name.as_str(), name) {
                proof {
                    lemma_key_map_index(named(self.equipment@), i as int);
                }
                return Some(i);
            }
            i = i + 1;
        }
        proof {
            if has_key(named(self.equipment@), name@) {
                let j = choose|j: int| 0 <= j < named(self.equipment@).len() && (#[trigger] named(self.equipment@)[j]).0 == name@;
                assert(self.equipment@[j].name@ == name@);
            }
        }
        None
    }

    /// Adds `equipment`, replacing any item with the same name.
    pub fn add(&mut self, equipment: EquipmentItem)
        requires
            old(self).wf(),
        ensures
            final(self).wf(),
            final(self)@ == old(self)@.insert(equipment.name@, equipment),
    {
        let ghost before = self.equipment@;
        let name = equipment.name.clone();
        match self.find(name.as_str()) {
            Some(i) => {
                self.equipment.set(i, equipment);
                proof {
                    lemma_key_map_update(named(before), i as int, equipment);
                    assert(named(self.equipment@) =~= named(before).update(i as int, (named(before)[i as int].0, equipment)));
                }
            },
            None => {
                self.equipment.push(equipment);
                proof {
                    lemma_key_map_push(named(before), equipment.name@, equipment);
                    assert(named(self.equipment@) =~= named(before).push((equipment.name@, equipment)));
                }
            },
        }
    }

    /// A catalogue of `items`; a later item with the same name replaces an
    /// earlier one.
    pub fn init_with(items: &[EquipmentItem]) -> (r: EquipmentResource)
        ensures
            r.wf(),
            forall|name: Seq<char>| r@.contains_key(name) <==> exists|k: int| 0 <= k < items@.len() && (#[trigger] items@[k]).name@ == name,
            forall|name: Seq<char>| #[trigger] r@.contains_key(name) ==> exists|k: int| 0 <= k < items@.len() && same_item(r@[name], #[trigger] items@[k]) && items@[k].name@ == name
                && forall|m: int| k < m < items@.len() ==> (#[trigger] items@[m]).name@ != name,
    {
        let mut r = EquipmentResource::init();
        let mut k: usize = 0;
        while k < items.len()
            invariant
                r.wf(),
                k <= items@.len(),
                forall|name: Seq<char>| r@.contains_key(name) <==> exists|j: int| 0 <= j < k && (#[trigger] items@[j]).name@ == name,
                forall|name: Seq<char>| #[trigger] r@.contains_key(name) ==> exists|j: int| 0 <= j < k && same_item(r@[name], #[trigger] items@[j]) && items@[j].name@ == name
                    && forall|m: int| j < m < k ==> (#[trigger] items@[m]).name@ != name,
            decreases items@.len() - k,
        {
            let item = items[k].duplicate();
            let ghost before = r@;
            r.add(item);
            proof {
                assert forall|name: Seq<char>| r@.contains_key(name) <==> exists|j: int| 0 <= j < k + 1 && (#[trigger] items@[j]).name@ == name by {
                    if name != item.name@ && before.contains_key(name) {
                        let j = choose|j: int| 0 <= j < k && (#[trigger] items@[j]).name@ == name;
                        assert(items@[j].name@ == name);
                    }
                    if name == item.name@ {
                        assert(items@[k as int].name@ == name);
                    }
                }
                assert forall|name: Seq<char>| #[trigger] r@.contains_key(name) implies exists|j: int| 0 <= j < k + 1 && same_item(r@[name], #[trigger] items@[j]) && items@[j].name@ == name
                    && forall|m: int| j < m < k + 1 ==> (#[trigger] items@[m]).name@ != name by {
                    if name == item.name@ {
                        assert(same_item(r@[name], items@[k as int]));
                    } else {
                        let j = choose|j: int| 0 <= j < k && same_item(before[name], #[trigger] items@[j]) && items@[j].name@ == name
                            && forall|m: int| j < m < k ==> (#[trigger] items@[m]).name@ != name;
                        assert(same_item(r@[name], items@[j]));
                    }
                }
            }
            k = k + 1;
        }
        r
    }

    /// Whether an item named `name` is held.
    pub fn contains(&self, name: &str) -> (r: bool)
        requires
            self.wf(),
        ensures
            r == self@.contains_key(name@),
    {
        self.find(name).is_some()
    }

    /// A copy of the item named `name`, which must be held.
    pub fn get(&self, name: &str) -> (r: EquipmentItem)
        requires
            self.wf(),
            self@.contains_key(name@),
        ensures
            same_item(r, self@[name@]),
            r.name@ == name@,
    {
        let i = self.find(name).unwrap();
        self.equipment[i].duplicate()
    }

    /// Copies of every held item, each name once.
    pub fn all(&self) -> (r: Vec<EquipmentItem>)
        requires
            self.wf(),
        ensures
            forall|i: int, j: int| 0 <= i < r@.len() && 0 <= j < r@.len() && i != j ==> (#[trigger] r@[i]).name@ != (#[trigger] r@[j]).name@,
            forall|name: Seq<char>| self@.contains_key(name) <==> exists|k: int| 0 <= k < r@.len() && (#[trigger] r@[k]).name@ == name,
            forall|k: int| 0 <= k < r@.len() ==> same_item(#[trigger] r@[k], self@[r@[k].name@]),
    {
        let mut out: Vec<EquipmentItem> = Vec::new();
        let mut k: usize = 0;
        while k < self.equipment.len()
            invariant
                self.wf(),
                k <= self.equipment@.len(),
                out@.len() == k,
                forall|j: int| 0 <= j < k ==> same_item(#[trigger] out@[j], self.equipment@[j]),
            decreases self.equipment@.len() - k,
        {
            out.push(self.equipment[k].duplicate());
            k = k + 1;
        }
        proof {
            assert forall|name: Seq<char>| self@.contains_key(name) <==> exists|k: int| 0 <= k < out@.len() && (#[trigger] out@[k]).name@ == name by {
                if self@.contains_key(name) {
                    let j = choose|j: int| 0 <= j < named(self.equipment@).len() && (#[trigger] named(self.equipment@)[j]).0 == name;
                    assert(out@[j].name@ == name);
                }
                if exists|k: int| 0 <= k < out@.len() && (#[trigger] out@[k]).name@ == name {
                    let j = choose|k: int| 0 <= k < out@.len() && (#[trigger] out@[k]).name@ == name;
                    lemma_key_map_index(named(self.equipment@), j);
                }
            }
            assert forall|k: int| 0 <= k < out@.len() implies same_item(#[trigger] out@[k], self@[out@[k].name@]) by {
                lemma_key_map_index(named(self.equipment@), k);
            }
            assert forall|i: int, j: int| 0 <= i < out@.len() && 0 <= j < out@.len() && i != j implies (#[trigger] out@[i]).name@ != (#[trigger] out@[j]).name@ by {
                assert(named(self.equipment@)[i].0 != named(self.equipment@)[j].0);
            }
        }
        out
    }
}

} // verus!
