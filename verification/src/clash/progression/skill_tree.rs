use vstd::prelude::*;

use super::equipment::{same_item, EquipmentItem, EquipmentKinds};
use super::progression_component::ProgressionState;
use crate::assoc::{distinct_keys, has_key, key_map, lemma_key_map_index, lemma_key_map_push, lemma_key_map_update};
use crate::atlas::Point;
use crate::text::{str_equal, string_views};

verus! {

/// The letters and values a roman numeral is written with, largest first.
pub open spec fn roman_pairs() -> Seq<(Seq<char>, nat)> {
    seq![
        ("M"@, 1000nat),
        ("CM"@, 900nat),
        ("D"@, 500nat),
        ("CD"@, 400nat),
        ("C"@, 100nat),
        ("XC"@, 90nat),
        ("L"@, 50nat),
        ("XL"@, 40nat),
        ("X"@, 10nat),
        ("IX"@, 9nat),
        ("V"@, 5nat),
        ("IV"@, 4nat),
        ("I"@, 1nat),
    ]
}

/// `n` written greedily with the pairs from index `i` on: as many of the
/// largest pair as fit, then the next.
pub open spec fn roman_from(n: nat, i: nat) -> Seq<char>
    decreases 13 - i, n,
{
    if i >= 13 {
        Seq::empty()
    } else if n >= roman_pairs()[i as int].1 && roman_pairs()[i as int].1 > 0 {
        roman_pairs()[i as int].0 + roman_from((n - roman_pairs()[i as int].1) as nat, i)
    } else {
        roman_from(n, i + 1)
    }
}

/// The roman numeral for `n`.
pub open spec fn roman_numeral(n: i32) -> Seq<char> {
    roman_from(n as nat, 0)
}

/// The largest number written as a roman numeral.
pub const ROMAN_MAX: u32 = 3999;

/// `roman::to`: the roman numeral for `n`, which exists exactly for
/// `1 <= n <= 3999`, written greedily with the pairs of `roman_pairs`.
#[verifier::external_body]
fn roman_to(n: i32) -> (r: Option<String>)
    ensures
        r is Some <==> 1 <= n <= 3999,
        r matches Some(s) ==> s@ == roman_numeral(n),
{
    roman::to(n)
}

/// What a node of the skill tree unlocks.
#[derive(Clone, Debug)]
pub enum SkillTreeContents {
    Equipment(EquipmentItem),
    /// One more slot of a kind; the number counts the expansions of that kind.
    EquipmentExpansion(EquipmentKinds, u32),
}

/// A node of the skill tree: what it unlocks, where it is drawn, what it
/// costs and which names must be unlocked first.
#[derive(Clone, Debug)]
pub struct SkillTreeNode {
    pub contents: SkillTreeContents,
    pub position: Point,
    pub cost: u32,
    pub dependencies: Vec<String>,
}

/// How a node stands for a given progression.
#[derive(Debug, Clone, Copy, PartialEq, Eq, Structural)]
pub enum SkillNodeStatus {
    Selected,
    Available,
    Unavailable,
}

/// Whether two contents unlock the same thing.
pub open spec fn same_contents(a: SkillTreeContents, b: SkillTreeContents) -> bool {
    match (a, b) {
        (SkillTreeContents::Equipment(x), SkillTreeContents::Equipment(y)) => same_item(x, y),
        (SkillTreeContents::EquipmentExpansion(k, g), SkillTreeContents::EquipmentExpansion(l, h)) => k == l && g == h,
        _ => false,
    }
}

/// Whether two nodes hold the same contents, position, cost and dependencies.
pub open spec fn same_node(a: SkillTreeNode, b: SkillTreeNode) -> bool {
    &&& same_contents(a.contents, b.contents)
    &&& a.position == b.position
    &&& a.cost == b.cost
    &&& string_views(a.dependencies@) == string_views(b.dependencies@)
}

/// The name of an expansion of kind `kind`, with a numeral after it when
/// there is one.
pub open spec fn spec_expansion_name(kind: EquipmentKinds, numeral: Option<Seq<char>>) -> Seq<char> {
    match numeral {
        Some(n) => kind.spec_name() + " Expansion "@ + n,
        None => kind.spec_name() + " Expansion"@,
    }
}

/// The name a node is known by: its item's name, or "<Kind> Expansion" with
/// the roman numeral of the expansion count after it from the second one on.
pub open spec fn spec_node_name(node: SkillTreeNode) -> Seq<char> {
    match node.contents {
        SkillTreeContents::Equipment(item) => item.name@,
        SkillTreeContents::EquipmentExpansion(kind, generation) => if generation > 1 {
            spec_expansion_name(kind, Some(roman_numeral(generation as i32)))
        } else {
            spec_expansion_name(kind, None)
        },
    }
}

/// Whether a node can be named: an expansion count has a roman numeral.
pub open spec fn node_nameable(node: SkillTreeNode) -> bool {
    match node.contents {
        SkillTreeContents::Equipment(_) => true,
        SkillTreeContents::EquipmentExpansion(_, generation) => generation <= ROMAN_MAX,
    }
}

/// The image a node is drawn with.
pub open spec fn spec_node_image(node: SkillTreeNode) -> Option<Seq<char>> {
    match node.contents {
        SkillTreeContents::Equipment(item) => match item.image {
            Some(i) => Some(i@),
            None => None,
        },
        SkillTreeContents::EquipmentExpansion(kind, _) => Some(
            match kind {
                EquipmentKinds::Weapon => "SpellBook05_09.png"@,
                EquipmentKinds::Armor => "SpellBook05_10.png"@,
                EquipmentKinds::Accessory => "SpellBook05_59.png"@,
                EquipmentKinds::Mastery => "SpellBook05_38.png"@,
            },
        ),
    }
}

/// The name of an expansion of kind `kind`, followed by `numeral` when given.
pub fn expansion_name(kind: EquipmentKinds, numeral: Option<String>) -> (r: String)
    ensures
        r@ == spec_expansion_name(
            kind,
            match numeral {
                Some(n) => Some(n@),
                None => None,
            },
        ),
{
    let mut out = String::from_str(kind.name());
    match numeral {
        Some(n) => {
            out.append(" Expansion ");
            out.append(n.as_str());
        },
        None => {
            out.append(" Expansion");
        },
    }
    out
}

/// Copies of a list of strings.
fn strings_of(items: &[&str]) -> (r: Vec<String>)
    ensures
        string_views(r@) == items@.map_values(|s: &str| s@),
{
    let mut out: Vec<String> = Vec::new();
    let mut k: usize = 0;
    while k < items.len()
        invariant
            k <= items@.len(),
            string_views(out@) == items@.take(k as int).map_values(|s: &str| s@),
        decreases items@.len() - k,
    {
        let ghost before = out@;
        let item = String::from_str(items[k]);
        out.push(item);
        assert(items@.take(k + 1) =~= items@.take(k as int).push(items@[k as int]));
        assert(string_views(out@) =~= string_views(before).push(item@));
        assert(items@.take(k + 1).map_values(|s: &str| s@) =~= items@.take(k as int).map_values(|s: &str| s@).push(items@[k as int]@));
        k = k + 1;
    }
    assert(items@.take(k as int) =~= items@);
    out
}

/// A copy of a list of strings.
fn copy_strings(items: &Vec<String>) -> (r: Vec<String>)
    ensures
        string_views(r@) == string_views(items@),
{
    let mut out: Vec<String> = Vec::new();
    let mut k: usize = 0;
    while k < items.len()
        invariant
            k <= items@.len(),
            string_views(out@) == string_views(items@.take(k as int)),
        decreases items@.len() - k,
    {
        let ghost before = out@;
        let item = items[k].clone();
        out.push(item);
        assert(items@.take(k + 1) =~= items@.take(k as int).push(items@[k as int]));
        assert(string_views(out@) =~= string_views(before).push(item@));
        assert(string_views(items@.take(k + 1)) =~= string_views(items@.take(k as int)).push(items@[k as int]@));
        k = k + 1;
    }
    assert(items@.take(k as int) =~= items@);
    out
}

impl SkillTreeNode {
    /// A node unlocking `equipment`.
    pub fn with_equipment(equipment: EquipmentItem, position: Point, cost: u32, dependencies: &[&str]) -> (r: SkillTreeNode)
        ensures
            r.contents == SkillTreeContents::Equipment(equipment),
            r.position == position,
            r.cost == cost,
            string_views(r.dependencies@) == dependencies@.map_values(|s: &str| s@),
    {
        SkillTreeNode { contents: SkillTreeContents::Equipment(equipment), position, cost, dependencies: strings_of(dependencies) }
    }

    /// A node unlocking one more slot of kind `kind`, the expansion numbered
    /// `generation` of that kind.
    pub fn with_expansion(kind: EquipmentKinds, generation: u32, position: Point, cost: u32, dependencies: &[&str]) -> (r: SkillTreeNode)
        ensures
            r.contents == SkillTreeContents::EquipmentExpansion(kind, generation),
            r.position == position,
            r.cost == cost,
            string_views(r.dependencies@) == dependencies@.map_values(|s: &str| s@),
    {
        SkillTreeNode {
            contents: SkillTreeContents::EquipmentExpansion(kind, generation),
            position,
            cost,
            dependencies: strings_of(dependencies),
        }
    }

    /// A copy of this node.
    pub fn duplicate(&self) -> (r: SkillTreeNode)
        ensures
            same_node(r, *self),
    {
        SkillTreeNode {
            contents: match &self.contents {
                SkillTreeContents::Equipment(item) => SkillTreeContents::Equipment(item.duplicate()),
                SkillTreeContents::EquipmentExpansion(kind, generation) => SkillTreeContents::EquipmentExpansion(
                    *kind,
                    *generation,
                ),
            },
            position: self.position,
            cost: self.cost,
            dependencies: copy_strings(&self.dependencies),
        }
    }

    /// The name this node is known by.
    pub fn name(&self) -> (r: String)
        requires
            node_nameable(*self),
        ensures
            r@ == spec_node_name(*self),
    {
        match &self.contents {
            SkillTreeContents::Equipment(item) => item.name.clone(),
            SkillTreeContents::EquipmentExpansion(kind, generation) => {
                if *generation > 1 {
                    let numeral = roman_to(*generation as i32);
                    expansion_name(*kind, numeral)
                } else {
                    expansion_name(*kind, None)
                }
            },
        }
    }

    /// The image this node is drawn with, if it has one.
    pub fn image(&self) -> (r: Option<String>)
        ensures
            r matches Some(s) ==> spec_node_image(*self) == Some(s@),
            r is None ==> spec_node_image(*self) is None,
    {
        match &self.contents {
            SkillTreeContents::Equipment(item) => match &item.image {
                Some(i) => Some(i.clone()),
                None => None,
            },
            SkillTreeContents::EquipmentExpansion(kind, _) => Some(
                String::from_str(
                    match kind {
                        EquipmentKinds::Weapon => "SpellBook05_09.png",
                        EquipmentKinds::Armor => "SpellBook05_10.png",
                        EquipmentKinds::Accessory => "SpellBook05_59.png",
                        EquipmentKinds::Mastery => "SpellBook05_38.png",
                    },
                ),
            ),
        }
    }
}

/// Whether every dependency of `node` has been unlocked in `state`.
pub open spec fn dependencies_met(state: ProgressionState, node: SkillTreeNode) -> bool {
    forall|k: int| 0 <= k < node.dependencies@.len() ==> state.spec_has_unlock(#[trigger] node.dependencies@[k]@)
}

/// Whether `node` can be selected in `state`: not yet unlocked, every
/// dependency unlocked, and affordable.
pub open spec fn spec_can_select(state: ProgressionState, node: SkillTreeNode) -> bool {
    &&& !state.spec_has_unlock(spec_node_name(node))
    &&& dependencies_met(state, node)
    &&& node.cost <= state.influence
}

/// How `node` stands in `state`.
pub open spec fn spec_status(state: ProgressionState, node: SkillTreeNode) -> SkillNodeStatus {
    if state.spec_has_unlock(spec_node_name(node)) {
        SkillNodeStatus::Selected
    } else if spec_can_select(state, node) {
        SkillNodeStatus::Available
    } else {
        SkillNodeStatus::Unavailable
    }
}

/// The images of a list of nodes, in order, skipping nodes without one.
pub open spec fn spec_icons(nodes: Seq<SkillTreeNode>) -> Seq<Seq<char>>
    decreases nodes.len(),
{
    if nodes.len() == 0 {
        Seq::empty()
    } else {
        let rest = spec_icons(nodes.drop_last());
        match spec_node_image(nodes.last()) {
            Some(i) => rest.push(i),
            None => rest,
        }
    }
}

/// Nodes keyed by their names.
pub open spec fn keyed_nodes(nodes: Seq<SkillTreeNode>) -> Seq<(Seq<char>, SkillTreeNode)> {
    nodes.map_values(|n: SkillTreeNode| (spec_node_name(n), n))
}

/// The nodes a player picks from between fights, each name at most once.
pub struct SkillTree {
    nodes: Vec<SkillTreeNode>,
}

impl View for SkillTree {
    type V = Map<Seq<char>, SkillTreeNode>;

    open spec fn view(&self) -> Map<Seq<char>, SkillTreeNode> {
        key_map(keyed_nodes(self.entries()))
    }
}

/// Whether `state` has `name` unlocked.
fn node_selected(state: &ProgressionState, node: &SkillTreeNode) -> (r: bool)
    requires
        node_nameable(*node),
    ensures
        r == state.spec_has_unlock(spec_node_name(*node)),
{
    let name = node.name();
    state.has_unlock(name.as_str())
}

/// Whether `node` can be selected in `state`.
fn node_can_select(state: &ProgressionState, node: &SkillTreeNode) -> (r: bool)
    requires
        node_nameable(*node),
    ensures
        r == spec_can_select(*state, *node),
{
    let not_already_selected = !node_selected(state, node);
    let mut dependencies_fulfilled = true;
    let mut k: usize = 0;
    while k < node.dependencies.len()
        invariant
            k <= node.dependencies@.len(),
            dependencies_fulfilled == forall|j: int| 0 <= j < k ==> state.spec_has_unlock(#[trigger] node.dependencies@[j]@),
        decreases node.dependencies@.len() - k,
    {
        let ok = state.has_unlock(node.dependencies[k].as_str());
        proof {
            if !ok {
                assert(!state.spec_has_unlock(node.dependencies@[k as int]@));
            }
        }
        dependencies_fulfilled = dependencies_fulfilled && ok;
        k = k + 1;
    }
    let can_afford = node.cost <= state.influence;
    not_already_selected && dependencies_fulfilled && can_afford
}

impl SkillTree {
    /// The nodes, in the order they are kept.
    pub closed spec fn entries(&self) -> Seq<SkillTreeNode> {
        self.nodes@
    }

    /// Whether each name is held at most once and every node can be named.
    pub open spec fn wf(&self) -> bool {
        &&& distinct_keys(keyed_nodes(self.entries()))
        &&& forall|k: int| 0 <= k < self.entries().len() ==> node_nameable(#[trigger] self.entries()[k])
    }

    /// The index of the node named `name`, if held.
    fn find(&self, name: &str) -> (r: Option<usize>)
        requires
            self.wf(),
        ensures
            r matches Some(i) ==> i < self.entries().len() && self@.contains_key(name@) && self@[name@] == self.entries()[i as int],
            r is None ==> !self@.contains_key(name@),
    {
        let mut i: usize = 0;
        while i < self.nodes.len()
            invariant
                self.wf(),
                i <= self.nodes@.len(),
                forall|j: int| 0 <= j < i ==> spec_node_name(#[trigger] self.nodes@[j]) != name@,
            decreases self.nodes@.len() - i,
        {
            assert(node_nameable(self.entries()[i as int]));
            let node_name = self.nodes[i].name();
            if str_equal(node_name.as_str(), name) {
                proof {
                    lemma_key_map_index(keyed_nodes(self.entries()), i as int);
                }
                return Some(i);
            }
            i = i + 1;
        }
        proof {
            if has_key(keyed_nodes(self.entries()), name@) {
                let j = choose|j: int| 0 <= j < keyed_nodes(self.entries()).len() && (#[trigger] keyed_nodes(self.entries())[j]).0 == name@;
                assert(spec_node_name(self.nodes@[j]) == name@);
            }
        }
        None
    }

    /// A tree of `nodes`; a later node with the same name replaces an
    /// earlier one.
    pub fn init(nodes: &[SkillTreeNode]) -> (r: SkillTree)
        requires
            forall|k: int| 0 <= k < nodes@.len() ==> node_nameable(#[trigger] nodes@[k]),
        ensures
            r.wf(),
            forall|name: Seq<char>| r@.contains_key(name) <==> exists|k: int| 0 <= k < nodes@.len() && spec_node_name(#[trigger] nodes@[k]) == name,
            forall|name: Seq<char>| #[trigger] r@.contains_key(name) ==> exists|k: int| 0 <= k < nodes@.len() && same_node(r@[name], #[trigger] nodes@[k])
                && spec_node_name(nodes@[k]) == name && forall|m: int| k < m < nodes@.len() ==> spec_node_name(#[trigger] nodes@[m]) != name,
    {
        let mut r = SkillTree { nodes: Vec::new() };
        assert(keyed_nodes(r.entries()) =~= Seq::<(Seq<char>, SkillTreeNode)>::empty());
        let mut k: usize = 0;
        while k < nodes.len()
            invariant
                forall|j: int| 0 <= j < nodes@.len() ==> node_nameable(#[trigger] nodes@[j]),
                r.wf(),
                k <= nodes@.len(),
                forall|name: Seq<char>| r@.contains_key(name) <==> exists|j: int| 0 <= j < k && spec_node_name(#[trigger] nodes@[j]) == name,
                forall|name: Seq<char>| #[trigger] r@.contains_key(name) ==> exists|j: int| 0 <= j < k && same_node(r@[name], #[trigger] nodes@[j])
                    && spec_node_name(nodes@[j]) == name && forall|m: int| j < m < k ==> spec_node_name(#[trigger] nodes@[m]) != name,
            decreases nodes@.len() - k,
        {
            assert(node_nameable(nodes@[k as int]));
            let node = nodes[k].duplicate();
            let ghost before = r@;
            let ghost node_key = spec_node_name(node);
            assert(node_key == spec_node_name(nodes@[k as int]));
            r.add(node);
            proof {
                assert forall|name: Seq<char>| r@.contains_key(name) <==> exists|j: int| 0 <= j < k + 1 && spec_node_name(#[trigger] nodes@[j]) == name by {
                    if name != node_key && before.contains_key(name) {
                        let j = choose|j: int| 0 <= j < k && spec_node_name(#[trigger] nodes@[j]) == name;
                        assert(spec_node_name(nodes@[j]) == name);
                    }
                    if name == node_key {
                        assert(spec_node_name(nodes@[k as int]) == name);
                    }
                }
                assert forall|name: Seq<char>| #[trigger] r@.contains_key(name) implies exists|j: int| 0 <= j < k + 1 && same_node(r@[name], #[trigger] nodes@[j])
                    && spec_node_name(nodes@[j]) == name && forall|m: int| j < m < k + 1 ==> spec_node_name(#[trigger] nodes@[m]) != name by {
                    if name == node_key {
                        assert(same_node(r@[name], nodes@[k as int]));
                    } else {
                        let j = choose|j: int| 0 <= j < k && same_node(before[name], #[trigger] nodes@[j]) && spec_node_name(nodes@[j]) == name
                            && forall|m: int| j < m < k ==> spec_node_name(#[trigger] nodes@[m]) != name;
                        assert(same_node(r@[name], nodes@[j]));
                    }
                }
            }
            k = k + 1;
        }
        r
    }

    /// Adds `node`, replacing any node with the same name.
    fn add(&mut self, node: SkillTreeNode)
        requires
            old(self).wf(),
            node_nameable(node),
        ensures
            final(self).wf(),
            final(self)@ == old(self)@.insert(spec_node_name(node), node),
    {
        let ghost before = self.nodes@;
        let name = node.name();
        match self.find(name.as_str()) {
            Some(i) => {
                self.nodes.set(i, node);
                proof {
                    lemma_key_map_update(keyed_nodes(before), i as int, node);
                    assert(keyed_nodes(self.nodes@) =~= keyed_nodes(before).update(i as int, (keyed_nodes(before)[i as int].0, node)));
                }
            },
            None => {
                self.nodes.push(node);
                proof {
                    lemma_key_map_push(keyed_nodes(before), spec_node_name(node), node);
                    assert(keyed_nodes(self.nodes@) =~= keyed_nodes(before).push((spec_node_name(node), node)));
                }
            },
        }
    }

    /// The images of the nodes that have one.
    pub fn icons(&self) -> (r: Vec<String>)
        ensures
            string_views(r@) == spec_icons(self.entries()),
    {
        let mut out: Vec<String> = Vec::new();
        let mut k: usize = 0;
        while k < self.nodes.len()
            invariant
                k <= self.nodes@.len(),
                string_views(out@) == spec_icons(self.nodes@.take(k as int)),
            decreases self.nodes@.len() - k,
        {
            let ghost before = out@;
            assert(self.nodes@.take(k + 1).drop_last() == self.nodes@.take(k as int));
            if let Some(image) = self.nodes[k].image() {
                out.push(image);
                assert(string_views(out@) =~= string_views(before).push(image@));
            }
            k = k + 1;
        }
        assert(self.nodes@.take(k as int) =~= self.nodes@);
        out
    }

    /// Every node with how it stands in `state`.
    pub fn all(&self, state: &ProgressionState) -> (r: Vec<(SkillTreeNode, SkillNodeStatus)>)
        requires
            self.wf(),
        ensures
            r@.len() == self.entries().len(),
            forall|k: int| 0 <= k < r@.len() ==> same_node((#[trigger] r@[k]).0, self.entries()[k]) && r@[k].1 == spec_status(
                *state,
                self.entries()[k],
            ),
    {
        let mut out: Vec<(SkillTreeNode, SkillNodeStatus)> = Vec::new();
        let mut k: usize = 0;
        while k < self.nodes.len()
            invariant
                self.wf(),
                k <= self.nodes@.len(),
                out@.len() == k,
                forall|j: int| 0 <= j < k ==> same_node((#[trigger] out@[j]).0, self.nodes@[j]) && out@[j].1 == spec_status(*state, self.nodes@[j]),
            decreases self.nodes@.len() - k,
        {
            let node = &self.nodes[k];
            assert(node_nameable(self.entries()[k as int]));
            let status = if node_selected(state, node) {
                SkillNodeStatus::Selected
            } else if node_can_select(state, node) {
                SkillNodeStatus::Available
            } else {
                SkillNodeStatus::Unavailable
            };
            out.push((node.duplicate(), status));
            k = k + 1;
        }
        out
    }

    /// What the node named `name` costs.
    pub fn cost(&self, name: &str) -> (r: u32)
        requires
            self.wf(),
            self@.contains_key(name@),
        ensures
            r == self@[name@].cost,
    {
        let i = self.find(name).unwrap();
        self.nodes[i].cost
    }

    /// Whether the node named `name` can be selected in `state`.
    pub fn can_select(&self, state: &ProgressionState, name: &str) -> (r: bool)
        requires
            self.wf(),
            self@.contains_key(name@),
        ensures
            r == spec_can_select(*state, self@[name@]),
    {
        let i = self.find(name).unwrap();
        assert(node_nameable(self.entries()[i as int]));
        node_can_select(state, &self.nodes[i])
    }

    /// Selects the node named `name` if it can be selected: its cost leaves
    /// the influence, and its name joins the items, or for an expansion the
    /// equipment expansions, with one more slot of its kind. Otherwise
    /// nothing changes.
    pub fn select(&self, state: &mut ProgressionState, name: &str)
        requires
            self.wf(),
            self@.contains_key(name@),
            self@[name@].contents matches SkillTreeContents::EquipmentExpansion(kind, _) ==> old(state).equipment.slots(kind).len()
                < usize::MAX,
        ensures
            !spec_can_select(*old(state), self@[name@]) ==> *final(state) == *old(state),
            spec_can_select(*old(state), self@[name@]) ==> {
                &&& final(state).influence == old(state).influence - self@[name@].cost
                &&& final(state).phase == old(state).phase
                &&& final(state).weapon == old(state).weapon
                &&& match self@[name@].contents {
                    SkillTreeContents::Equipment(_) => {
                        &&& final(state).items@ == old(state).items@.insert(name@)
                        &&& final(state).equipment_expansions@ == old(state).equipment_expansions@
                        &&& final(state).equipment == old(state).equipment
                    },
                    SkillTreeContents::EquipmentExpansion(kind, _) => {
                        &&& final(state).items@ == old(state).items@
                        &&& final(state).equipment_expansions@ == old(state).equipment_expansions@.insert(name@)
                        &&& final(state).equipment.slots(kind) == old(state).equipment.slots(kind).push(None)
                        &&& forall|k: EquipmentKinds| k != kind ==> #[trigger] final(state).equipment.slots(k) == old(
                            state,
                        ).equipment.slots(k)
                        &&& final(state).equipment.extensions() == old(state).equipment.extensions()
                    },
                }
            },
    {
        let i = self.find(name).unwrap();
        let node = &self.nodes[i];
        assert(node_nameable(self.entries()[i as int]));
        if node_can_select(state, node) {
            state.influence = state.influence - node.cost;
            match &node.contents {
                SkillTreeContents::Equipment(_) => {
                    state.items.insert(String::from_str(name));
                },
                SkillTreeContents::EquipmentExpansion(kind, _) => {
                    state.equipment_expansions.insert(String::from_str(name));
                    state.equipment.extend(*kind, false);
                },
            }
        }
    }
}

/// Once a node is selected it stands as selected and cannot be selected
/// again, and the player paid exactly its cost.
pub proof fn lemma_select_then_selected(tree: SkillTree, before: ProgressionState, after: ProgressionState, name: Seq<char>)
    requires
        tree.wf(),
        tree@.contains_key(name),
        spec_can_select(before, tree@[name]),
        after.influence == before.influence - tree@[name].cost,
        match tree@[name].contents {
            SkillTreeContents::Equipment(_) => after.items@ == before.items@.insert(name),
            SkillTreeContents::EquipmentExpansion(_, _) => after.equipment_expansions@ == before.equipment_expansions@.insert(name),
        },
    ensures
        after.spec_has_unlock(name),
        spec_status(after, tree@[name]) == SkillNodeStatus::Selected,
        !spec_can_select(after, tree@[name]),
        after.influence + tree@[name].cost == before.influence,
{
    let s = keyed_nodes(tree.entries());
    let i = choose|i: int| 0 <= i < s.len() && (#[trigger] s[i]).0 == name;
    lemma_key_map_index(s, i);
}

} // verus!
