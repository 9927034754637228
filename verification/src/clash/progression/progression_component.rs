use vstd::prelude::*;

use super::equipment::{Equipment, EquipmentKinds};
use crate::text::str_equal;

verus! {

/// A set of names, as a list in which each name is looked up by its text.
#[derive(Clone, Debug)]
pub struct NameSet {
    names: Vec<String>,
}

impl View for NameSet {
    type V = Set<Seq<char>>;

    closed spec fn view(&self) -> Set<Seq<char>> {
        self.names@.map_values(|s: String| s@).to_set()
    }
}

impl NameSet {
    /// The empty set.
    pub fn new() -> (r: NameSet)
        ensures
            r@ == Set::<Seq<char>>::empty(),
    {
        let r = NameSet { names: Vec::new() };
        assert(r@ =~= Set::<Seq<char>>::empty());
        r
    }

    /// A set holding each of `names`.
    pub fn from_strs(names: &[&str]) -> (r: NameSet)
        ensures
            forall|n: Seq<char>| r@.contains(n) <==> exists|k: int| 0 <= k < names@.len() && (#[trigger] names@[k])@ == n,
    {
        let mut r = NameSet::new();
        let mut k: usize = 0;
        while k < names.len()
            invariant
                k <= names@.len(),
                forall|n: Seq<char>| r@.contains(n) <==> exists|j: int| 0 <= j < k && (#[trigger] names@[j])@ == n,
            decreases names@.len() - k,
        {
            let ghost before = r@;
            r.insert(String::from_str(names[k]));
            proof {
                assert forall|n: Seq<char>| r@.contains(n) <==> exists|j: int| 0 <= j < k + 1 && (#[trigger] names@[j])@ == n by {
                    if n == names@[k as int]@ {
                        assert(names@[k as int]@ == n);
                    }
                    if before.contains(n) {
                        let j = choose|j: int| 0 <= j < k && (#[trigger] names@[j])@ == n;
                        assert(names@[j]@ == n);
                    }
                }
            }
            k = k + 1;
        }
        r
    }

    /// Whether `name` is in the set.
    pub fn contains(&self, name: &str) -> (r: bool)
        ensures
            r == self@.contains(name@),
    {
        let ghost views = self.names@.map_values(|s: String| s@);
        let mut k: usize = 0;
        while k < self.names.len()
            invariant
                k <= self.names@.len(),
                views == self.names@.map_values(|s: String| s@),
                forall|j: int| 0 <= j < k ==> (#[trigger] self.names@[j])@ != name@,
            decreases self.names@.len() - k,
        {
            if str_equal(self.names[k].as_str(), name) {
                assert(views[k as int] == name@);
                return true;
            }
            k = k + 1;
        }
        proof {
            if views.contains(name@) {
                let j = choose|j: int| 0 <= j < views.len() && views[j] == name@;
                assert(self.names@[j]@ == name@);
            }
        }
        false
    }

    /// Adds `name`; returns whether it was not there before.
    pub fn insert(&mut self, name: String) -> (r: bool)
        ensures
            r == !old(self)@.contains(name@),
            final(self)@ == old(self)@.insert(name@),
    {
        if self.contains(name.as_str()) {
            assert(old(self)@.insert(name@) =~= old(self)@);
            false
        } else {
            let ghost before = self.names@;
            let ghost v = name@;
            self.names.push(name);
            proof {
                let now = self.names@.map_values(|s: String| s@);
                let was = before.map_values(|s: String| s@);
                assert(now =~= was.push(v));
                was.lemma_push_to_set_commute(v);
            }
            true
        }
    }

    /// The number of names in the set.
    pub fn len(&self) -> (r: usize)
        ensures
            r == self@.len(),
    {
        let mut seen: Vec<String> = Vec::new();
        let ghost views = self.names@.map_values(|s: String| s@);
        let mut k: usize = 0;
        while k < self.names.len()
            invariant
                k <= self.names@.len(),
                views == self.names@.map_values(|s: String| s@),
                seen@.len() <= k,
                seen@.map_values(|s: String| s@).no_duplicates(),
                seen@.map_values(|s: String| s@).to_set() == views.take(k as int).to_set(),
            decreases self.names@.len() - k,
        {
            let ghost old_seen = seen@.map_values(|s: String| s@);
            let name = &self.names[k];
            let mut found = false;
            let mut j: usize = 0;
            while j < seen.len()
                invariant
                    j <= seen@.len(),
                    found == exists|i: int| 0 <= i < j && (#[trigger] seen@[i])@ == name@,
                decreases seen@.len() - j,
            {
                if str_equal(seen[j].as_str(), name.as_str()) {
                    found = true;
                }
                j = j + 1;
            }
            proof {
                assert(views.take(k + 1) =~= views.take(k as int).push(views[k as int]));
                views.take(k as int).lemma_push_to_set_commute(views[k as int]);
                if found {
                    let i = choose|i: int| 0 <= i < seen@.len() && (#[trigger] seen@[i])@ == name@;
                    assert(old_seen[i] == name@);
                    assert(old_seen.to_set().contains(name@));
                    assert(old_seen.to_set().insert(name@) =~= old_seen.to_set());
                }
            }
            if !found {
                seen.push(name.clone());
                proof {
                    let now = seen@.map_values(|s: String| s@);
                    assert(now =~= old_seen.push(name@));
                    old_seen.lemma_push_to_set_commute(name@);
                    assert forall|a: int, b: int| 0 <= a < now.len() && 0 <= b < now.len() && a != b implies now[a] != now[b] by {
                        if a == old_seen.len() {
                            assert(seen@[b]@ == old_seen[b]);
                        } else if b == old_seen.len() {
                            assert(seen@[a]@ == old_seen[a]);
                        }
                    }
                }
            }
            k = k + 1;
        }
        proof {
            assert(views.take(k as int) =~= views);
            seen@.map_values(|s: String| s@).unique_seq_to_set();
        }
        seen.len()
    }
}

/// The weapon a character fights with.
#[derive(Clone, Copy, Debug, PartialEq, Eq, Structural)]
pub enum CharacterWeaponKind {
    Gunslinger,
}

/// What a player has earned and chosen between fights.
#[derive(Clone, Debug)]
pub struct ProgressionState {
    pub phase: u32,
    pub influence: u32,
    pub items: NameSet,
    pub equipment_expansions: NameSet,
    pub weapon: CharacterWeaponKind,
    pub equipment: Equipment,
}

impl ProgressionState {
    /// A state in the given phase with the given influence, items, weapon
    /// and equipment, and no equipment expansion.
    pub fn init(phase: u32, influence: u32, items: &[&str], weapon: CharacterWeaponKind, equipment: Equipment) -> (r: ProgressionState)
        ensures
            r.phase == phase,
            r.influence == influence,
            forall|n: Seq<char>| r.items@.contains(n) <==> exists|k: int| 0 <= k < items@.len() && (#[trigger] items@[k])@ == n,
            r.equipment_expansions@ == Set::<Seq<char>>::empty(),
            r.weapon == weapon,
            r.equipment == equipment,
    {
        ProgressionState {
            phase,
            influence,
            items: NameSet::from_strs(items),
            equipment_expansions: NameSet::new(),
            weapon,
            equipment,
        }
    }

    /// The starting state of a gunslinger: one item, "Oversized Chamber",
    /// and three weapon, two armor, two accessory and one mastery slot.
    pub fn init_gunslinger() -> (r: ProgressionState)
        ensures
            r.phase == 0,
            r.influence == 0,
            r.items@ == set!["Oversized Chamber"@],
            r.equipment_expansions@ == Set::<Seq<char>>::empty(),
            r.weapon == CharacterWeaponKind::Gunslinger,
            r.equipment.slots(EquipmentKinds::Weapon).len() == 3,
            r.equipment.slots(EquipmentKinds::Armor).len() == 2,
            r.equipment.slots(EquipmentKinds::Accessory).len() == 2,
            r.equipment.slots(EquipmentKinds::Mastery).len() == 1,
            forall|k: EquipmentKinds, i: int| 0 <= i < r.equipment.slots(k).len() ==> #[trigger] r.equipment.slots(k)[i] is None,
            r.equipment.extensions() == Set::<EquipmentKinds>::empty(),
    {
        let names = ["Oversized Chamber"];
        let r = ProgressionState::init(0, 0, names.as_slice(), CharacterWeaponKind::Gunslinger, Equipment::init(3, 2, 2, 1));
        proof {
            assert forall|n: Seq<char>| r.items@.contains(n) <==> set!["Oversized Chamber"@].contains(n) by {
                if n == "Oversized Chamber"@ {
                    assert(names@[0]@ == n);
                }
            }
            assert(r.items@ =~= set!["Oversized Chamber"@]);
        }
        r
    }

    /// Whether `name` has been unlocked, as an item or an equipment expansion.
    pub open spec fn spec_has_unlock(&self, name: Seq<char>) -> bool {
        self.items@.contains(name) || self.equipment_expansions@.contains(name)
    }

    /// Whether `name` has been unlocked, as an item or an equipment expansion.
    pub fn has_unlock(&self, name: &str) -> (r: bool)
        ensures
            r == self.spec_has_unlock(name@),
    {
        self.items.contains(name) || self.equipment_expansions.contains(name)
    }
}

/// The progression of the player, as a component of the game world.
#[derive(Clone, Debug)]
pub struct ProgressionComponent {
    pub state: ProgressionState,
}

impl ProgressionComponent {
    /// A component holding `state`.
    pub fn init(state: ProgressionState) -> (r: ProgressionComponent)
        ensures
            r.state == state,
    {
        ProgressionComponent { state }
    }
}

} // verus!
