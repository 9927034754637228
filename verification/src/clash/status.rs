use vstd::prelude::*;

use crate::assoc::{
    distinct_keys, has_key, key_index, key_map, lemma_key_map_index, lemma_key_map_push,
    lemma_key_map_remove,
};
use crate::clash::tick_timer::TickTimer;

verus! {

/// The kinds of status a character can carry.
#[derive(Clone, Copy, PartialEq, Eq, Structural, Debug, Hash)]
pub enum StatusKind {
    Burning,  // Retriggers as long as temperature is high enough
    Frozen,
    Magnum,
    Ignite,
    Cyclone,
    StaticCharge,
    Aimed,
    Armored,
    Flying,
    Regen,
    RegenTick,
    TestStatus,
    TestTrait,
}

/// The number of status kinds.
pub const STATUS_KIND_COUNT: u32 = 13;

impl StatusKind {
    /// The position of this kind in declaration order.
    pub open spec fn index(self) -> int {
        match self {
            StatusKind::Burning => 0,
            StatusKind::Frozen => 1,
            StatusKind::Magnum => 2,
            StatusKind::Ignite => 3,
            StatusKind::Cyclone => 4,
            StatusKind::StaticCharge => 5,
            StatusKind::Aimed => 6,
            StatusKind::Armored => 7,
            StatusKind::Flying => 8,
            StatusKind::Regen => 9,
            StatusKind::RegenTick => 10,
            StatusKind::TestStatus => 11,
            StatusKind::TestTrait => 12,
        }
    }

    /// The position of this kind in declaration order.
    pub fn to_u32(&self) -> (r: u32)
        ensures
            r == self.index(),
    {
        match self {
            StatusKind::Burning => 0,
            StatusKind::Frozen => 1,
            StatusKind::Magnum => 2,
            StatusKind::Ignite => 3,
            StatusKind::Cyclone => 4,
            StatusKind::StaticCharge => 5,
            StatusKind::Aimed => 6,
            StatusKind::Armored => 7,
            StatusKind::Flying => 8,
            StatusKind::Regen => 9,
            StatusKind::RegenTick => 10,
            StatusKind::TestStatus => 11,
            StatusKind::TestTrait => 12,
        }
    }

    /// The kind at position `v` in declaration order, if any.
    pub fn from_u32(v: u32) -> (r: Option<StatusKind>)
        ensures
            r matches Some(k) ==> k.index() == v,
            r is None <==> v >= STATUS_KIND_COUNT,
    {
        match v {
            0 => Some(StatusKind::Burning),
            1 => Some(StatusKind::Frozen),
            2 => Some(StatusKind::Magnum),
            3 => Some(StatusKind::Ignite),
            4 => Some(StatusKind::Cyclone),
            5 => Some(StatusKind::StaticCharge),
            6 => Some(StatusKind::Aimed),
            7 => Some(StatusKind::Armored),
            8 => Some(StatusKind::Flying),
            9 => Some(StatusKind::Regen),
            10 => Some(StatusKind::RegenTick),
            11 => Some(StatusKind::TestStatus),
            12 => Some(StatusKind::TestTrait),
            _ => None,
        }
    }

    /// The text shown for this kind.
    pub open spec fn spec_description(self) -> Seq<char> {
        match self {
            StatusKind::Burning => "Burning"@,
            StatusKind::Frozen => "Frozen"@,
            StatusKind::Magnum => "Magnum"@,
            StatusKind::Ignite => "Ignite"@,
            StatusKind::Cyclone => "Cyclone"@,
            StatusKind::StaticCharge => "Charge with Static"@,
            StatusKind::Aimed => "Aimed"@,
            StatusKind::Armored => "Armored"@,
            StatusKind::Flying => "Flying"@,
            StatusKind::Regen => "Regen"@,
            StatusKind::RegenTick => "RegenTick"@,
            StatusKind::TestStatus => "TestStatus"@,
            StatusKind::TestTrait => "TestTrait"@,
        }
    }

    /// The text shown for this kind: its name, except for static charge.
    pub fn description(&self) -> (r: String)
        ensures
            r@ == self.spec_description(),
    {
        let s = match self {
            StatusKind::Burning => "Burning",
            StatusKind::Frozen => "Frozen",
            StatusKind::Magnum => "Magnum",
            StatusKind::Ignite => "Ignite",
            StatusKind::Cyclone => "Cyclone",
            StatusKind::StaticCharge => "Charge with Static",
            StatusKind::Aimed => "Aimed",
            StatusKind::Armored => "Armored",
            StatusKind::Flying => "Flying",
            StatusKind::Regen => "Regen",
            StatusKind::RegenTick => "RegenTick",
            StatusKind::TestStatus => "TestStatus",
            StatusKind::TestTrait => "TestTrait",
        };
        String::from_str(s)
    }

    /// Whether this kind is shown to the player.
    pub open spec fn spec_should_display(self) -> bool {
        !(self is Flying || self is RegenTick)
    }

    /// Whether this kind is shown to the player (flight and the regeneration
    /// tick are not).
    pub fn should_display(&self) -> (r: bool)
        ensures
            r == self.spec_should_display(),
    {
        match self {
            StatusKind::Flying | StatusKind::RegenTick => false,
            _ => true,
        }
    }
}

/// Flight and the regeneration tick are the only kinds hidden from the
/// player; every other kind, aim included, is shown.
pub proof fn lemma_hidden_kinds(kind: StatusKind)
    ensures
        !kind.spec_should_display() <==> (kind == StatusKind::Flying || kind == StatusKind::RegenTick),
{
}

/// Each index names one kind.
pub proof fn lemma_index_injective(a: StatusKind, b: StatusKind)
    ensures
        a.index() == b.index() ==> a == b,
        0 <= a.index() < STATUS_KIND_COUNT,
{
}

/// A held status: a timed status with its timer, or a trait that lasts until
/// removed.
#[derive(Clone, Copy)]
pub enum StatusType {
    Status(TickTimer),
    Trait,
}

/// Whether `m` holds `k` as a timed status.
pub open spec fn is_status(m: Map<StatusKind, StatusType>, k: StatusKind) -> bool {
    m.contains_key(k) && m[k] is Status
}

/// Whether `m` holds `k` as a trait.
pub open spec fn is_trait(m: Map<StatusKind, StatusType>, k: StatusKind) -> bool {
    m.contains_key(k) && m[k] is Trait
}

/// Whether the timed status `t` fires when `ticks` are added.
pub open spec fn fires(t: TickTimer, ticks: i32) -> bool {
    t.spec_ticks() + ticks >= t.spec_duration()
}

/// A timed status runs out exactly when the ticks it has counted plus the
/// ticks added reach its duration; adding more ticks never undoes that.
pub proof fn lemma_fires_when_due(t: TickTimer, ticks: i32, more: i32)
    requires
        more >= ticks,
    ensures
        fires(t, ticks) <==> t.spec_ticks() + ticks >= t.spec_duration(),
        fires(t, ticks) ==> fires(t, more),
{
}

/// The statuses and traits a character carries, each kind at most once.
#[derive(Clone)]
pub struct StatusStore {
    store: Vec<(StatusKind, StatusType)>,
}

impl View for StatusStore {
    type V = Map<StatusKind, StatusType>;

    closed spec fn view(&self) -> Map<StatusKind, StatusType> {
        key_map(self.store@)
    }
}

impl StatusStore {
    /// Whether each kind is held at most once.
    pub closed spec fn wf(&self) -> bool {
        distinct_keys(self.store@)
    }

    /// An empty store.
    pub fn init() -> (r: StatusStore)
        ensures
            r.wf(),
            r@ == Map::<StatusKind, StatusType>::empty(),
    {
        let r = StatusStore { store: Vec::new() };
        assert(r@ =~= Map::<StatusKind, StatusType>::empty());
        r
    }

    /// The index of `kind` in the store, if held.
    fn find(&self, kind: StatusKind) -> (r: Option<usize>)
        requires
            self.wf(),
        ensures
            r matches Some(i) ==> i < self.store@.len() && self.store@[i as int].0 == kind && self@.contains_key(kind)
                && self@[kind] == self.store@[i as int].1,
            r is None ==> !self@.contains_key(kind),
    {
        let mut i: usize = 0;
        while i < self.store.len()
            invariant
                self.wf(),
                i <= self.store@.len(),
                forall|j: int| 0 <= j < i ==> (#[trigger] self.store@[j]).0 != kind,
            decreases self.store@.len() - i,
        {
            if self.store[i].0 == kind {
                proof {
                    lemma_key_map_index(self.store@, i as int);
                }
                return Some(i);
            }
            i = i + 1;
        }
        None
    }

    /// Adds a timed status of `length` ticks; a status already held keeps its
    /// timer. The kind must not be held as a trait.
    pub fn add_status(&mut self, kind: StatusKind, length: i32)
        requires
            old(self).wf(),
            !is_trait(old(self)@, kind),
        ensures
            final(self).wf(),
            old(self)@.contains_key(kind) ==> final(self)@ == old(self)@,
            !old(self)@.contains_key(kind) ==> (final(self)@.remove(kind) == old(self)@ && (final(self)@[kind] matches StatusType::Status(t) && t.spec_ticks() == 0 && t.spec_duration() == length)),
            final(self)@.contains_key(kind),
    {
        match self.find(kind) {
            Some(_) => {
                // Already held as a status: its timer already runs at least its own duration
            },
            None => {
                let ghost before = self.store@;
                let timer = TickTimer::init_with_duration(length);
                self.store.push((kind, StatusType::Status(timer)));
                proof {
                    lemma_key_map_push(before, kind, StatusType::Status(timer));
                    assert(self@.remove(kind) =~= key_map(before));
                }
            },
        }
    }

    /// Adds a trait. The kind must not be held as a timed status.
    pub fn add_trait(&mut self, kind: StatusKind)
        requires
            old(self).wf(),
            !is_status(old(self)@, kind),
        ensures
            final(self).wf(),
            final(self)@ == old(self)@.insert(kind, StatusType::Trait),
    {
        match self.find(kind) {
            Some(_) => {
                assert(old(self)@.insert(kind, StatusType::Trait) =~= old(self)@);
            },
            None => {
                let ghost before = self.store@;
                self.store.push((kind, StatusType::Trait));
                proof {
                    lemma_key_map_push(before, kind, StatusType::Trait);
                }
            },
        }
    }

    /// Removes the entry of a held kind.
    fn remove_entry(&mut self, kind: StatusKind)
        requires
            old(self).wf(),
            old(self)@.contains_key(kind),
        ensures
            final(self).wf(),
            final(self)@ == old(self)@.remove(kind),
    {
        let i = self.find(kind).unwrap();
        let ghost before = self.store@;
        self.store.remove(i);
        proof {
            lemma_key_map_remove(before, i as int);
        }
    }

    /// Removes a timed status, which must be held.
    pub fn remove_status(&mut self, kind: StatusKind)
        requires
            old(self).wf(),
            is_status(old(self)@, kind),
        ensures
            final(self).wf(),
            final(self)@ == old(self)@.remove(kind),
    {
        self.remove_entry(kind);
    }

    /// Removes a trait, which must be held.
    pub fn remove_trait(&mut self, kind: StatusKind)
        requires
            old(self).wf(),
            is_trait(old(self)@, kind),
        ensures
            final(self).wf(),
            final(self)@ == old(self)@.remove(kind),
    {
        self.remove_entry(kind);
    }

    /// Removes a trait if held; returns whether it was.
    pub fn remove_trait_if_found(&mut self, kind: StatusKind) -> (r: bool)
        requires
            old(self).wf(),
            !is_status(old(self)@, kind),
        ensures
            final(self).wf(),
            r == old(self)@.contains_key(kind),
            final(self)@ == old(self)@.remove(kind),
    {
        if self.has(kind) {
            self.remove_trait(kind);
            true
        } else {
            assert(old(self)@.remove(kind) =~= old(self)@);
            false
        }
    }

    /// Sets whether the trait `kind` is held. Returns `Some(true)` when it is
    /// added, `Some(false)` when it is removed, and `None` when nothing changes.
    pub fn toggle_trait(&mut self, kind: StatusKind, state: bool) -> (r: Option<bool>)
        requires
            old(self).wf(),
            !is_status(old(self)@, kind),
        ensures
            final(self).wf(),
            state && !old(self)@.contains_key(kind) ==> r == Some(true) && final(self)@ == old(self)@.insert(kind, StatusType::Trait),
            !state && old(self)@.contains_key(kind) ==> r == Some(false) && final(self)@ == old(self)@.remove(kind),
            state == old(self)@.contains_key(kind) ==> r is None && final(self)@ == old(self)@,
    {
        if state {
            if !self.has(kind) {
                self.add_trait(kind);
                return Some(true);
            }
        } else {
            if self.has(kind) {
                self.remove_trait(kind);
                return Some(false);
            }
        }
        None
    }

    /// Whether `kind` is held, as a status or a trait.
    pub fn has(&self, kind: StatusKind) -> (r: bool)
        requires
            self.wf(),
        ensures
            r == self@.contains_key(kind),
    {
        self.find(kind).is_some()
    }

    /// The period of the timed status `kind`; `None` for a trait or a kind
    /// not held.
    pub fn duration(&self, kind: StatusKind) -> (r: Option<i32>)
        requires
            self.wf(),
        ensures
            is_status(self@, kind) ==> r == Some(self@[kind]->Status_0.spec_duration()),
            !is_status(self@, kind) ==> r is None,
    {
        match self.find(kind) {
            Some(i) => match self.store[i].1 {
                StatusType::Status(timer) => Some(timer.duration()),
                StatusType::Trait => None,
            },
            None => None,
        }
    }

    /// Adds `ticks` to every timed status; those whose timer fires expire and
    /// are returned (each once, in store order). Traits are untouched.
    pub fn apply_ticks(&mut self, ticks: i32) -> (r: Vec<StatusKind>)
        requires
            old(self).wf(),
            forall|k: StatusKind| #[trigger] is_status(old(self)@, k) ==> old(self)@[k]->Status_0.can_apply(ticks),
        ensures
            final(self).wf(),
            forall|k: StatusKind| #[trigger] final(self)@.contains_key(k) ==> old(self)@.contains_key(k),
            forall|k: StatusKind| #[trigger] is_trait(old(self)@, k) ==> is_trait(final(self)@, k),
            forall|k: StatusKind|
                #[trigger] is_status(old(self)@, k) ==> {
                    let t = old(self)@[k]->Status_0;
                    if fires(t, ticks) {
                        !final(self)@.contains_key(k) && r@.contains(k)
                    } else {
                        is_status(final(self)@, k) && final(self)@[k]->Status_0.spec_ticks() == t.spec_ticks() + ticks
                            && final(self)@[k]->Status_0.spec_duration() == t.spec_duration()
                    }
                },
            forall|j: int| 0 <= j < r@.len() ==> is_status(old(self)@, #[trigger] r@[j]) && fires(old(self)@[r@[j]]->Status_0, ticks),
            forall|a: int, b: int| 0 <= a < b < r@.len() ==> #[trigger] r@[a] != #[trigger] r@[b],
    {
        let ghost old_store = self.store@;
        let mut remaining: Vec<(StatusKind, StatusType)> = Vec::new();
        let mut removed: Vec<StatusKind> = Vec::new();
        let mut i: usize = 0;
        proof {
            assert forall|j: int| 0 <= j < old_store.len() implies (#[trigger] old_store[j]).1 is Status ==> old_store[j].1->Status_0.can_apply(ticks) by {
                if old_store[j].1 is Status {
                    lemma_key_map_index(old_store, j);
                    assert(is_status(key_map(old_store), old_store[j].0));
                }
            }
        }
        while i < self.store.len()
            invariant
                self.store@ == old_store,
                distinct_keys(old_store),
                forall|j: int| 0 <= j < old_store.len() ==> (#[trigger] old_store[j]).1 is Status ==> old_store[j].1->Status_0.can_apply(ticks),
                i <= old_store.len(),
                distinct_keys(remaining@),
                forall|m: int| 0 <= m < remaining@.len() ==> exists|j: int| 0 <= j < i && old_store[j].0 == (#[trigger] remaining@[m]).0,
                forall|m: int| 0 <= m < removed@.len() ==> exists|j: int| 0 <= j < i && old_store[j].0 == #[trigger] removed@[m] && old_store[j].1 is Status && fires(old_store[j].1->Status_0, ticks),
                forall|a: int, b: int| 0 <= a < b < removed@.len() ==> #[trigger] removed@[a] != #[trigger] removed@[b],
                forall|j: int| 0 <= j < i ==> {
                    let (k, e) = #[trigger] old_store[j];
                    match e {
                        StatusType::Trait => key_map(remaining@).contains_key(k) && key_map(remaining@)[k] is Trait,
                        StatusType::Status(t) => if fires(t, ticks) {
                            !has_key(remaining@, k) && removed@.contains(k)
                        } else {
                            key_map(remaining@).contains_key(k) && key_map(remaining@)[k] is Status
                                && key_map(remaining@)[k]->Status_0.spec_ticks() == t.spec_ticks() + ticks
                                && key_map(remaining@)[k]->Status_0.spec_duration() == t.spec_duration()
                        },
                    }
                },
            decreases old_store.len() - i,
        {
            let (kind, entry) = self.store[i];
            proof {
                // `kind` is not among the entries processed so far
                assert forall|m: int| 0 <= m < remaining@.len() implies (#[trigger] remaining@[m]).0 != kind by {
                    let j = choose|j: int| 0 <= j < i && old_store[j].0 == remaining@[m].0;
                    assert(old_store[j].0 != old_store[i as int].0);
                }
                assert forall|m: int| 0 <= m < removed@.len() implies #[trigger] removed@[m] != kind by {
                    let j = choose|j: int| 0 <= j < i && old_store[j].0 == removed@[m] && old_store[j].1 is Status && fires(old_store[j].1->Status_0, ticks);
                    assert(old_store[j].0 != old_store[i as int].0);
                }
                assert(!has_key(remaining@, kind));
            }
            let ghost before_remaining = remaining@;
            let ghost before_removed = removed@;
            match entry {
                StatusType::Status(timer) => {
                    let mut timer = timer;
                    if timer.apply_ticks(ticks) {
                        removed.push(kind);
                        proof {
                            assert(removed@[removed@.len() - 1] == kind);
                        }
                    } else {
                        remaining.push((kind, StatusType::Status(timer)));
                        proof {
                            lemma_key_map_push(before_remaining, kind, StatusType::Status(timer));
                        }
                    }
                },
                StatusType::Trait => {
                    remaining.push((kind, StatusType::Trait));
                    proof {
                        lemma_key_map_push(before_remaining, kind, StatusType::Trait);
                    }
                },
            }
            proof {
                assert forall|m: int| 0 <= m < remaining@.len() implies exists|j: int| 0 <= j < i + 1 && old_store[j].0 == (#[trigger] remaining@[m]).0 by {
                    if m < before_remaining.len() {
                        assert(remaining@[m] == before_remaining[m]);
                        let j = choose|j: int| 0 <= j < i && old_store[j].0 == before_remaining[m].0;
                        assert(old_store[j].0 == remaining@[m].0);
                    } else {
                        assert(old_store[i as int].0 == remaining@[m].0);
                    }
                }
                assert forall|m: int| 0 <= m < removed@.len() implies exists|j: int| 0 <= j < i + 1 && old_store[j].0 == #[trigger] removed@[m] && old_store[j].1 is Status && fires(old_store[j].1->Status_0, ticks) by {
                    if m < before_removed.len() {
                        assert(removed@[m] == before_removed[m]);
                        let j = choose|j: int| 0 <= j < i && old_store[j].0 == before_removed[m] && old_store[j].1 is Status && fires(old_store[j].1->Status_0, ticks);
                        assert(old_store[j].0 == removed@[m]);
                    } else {
                        assert(old_store[i as int].0 == removed@[m]);
                    }
                }
                assert forall|a: int, b: int| 0 <= a < b < removed@.len() implies #[trigger] removed@[a] != #[trigger] removed@[b] by {
                    if b < before_removed.len() {
                        assert(removed@[a] == before_removed[a] && removed@[b] == before_removed[b]);
                    } else {
                        assert(removed@[a] == before_removed[a]);
                    }
                }
                assert forall|j: int| 0 <= j < i + 1 implies {
                    let (k, e) = #[trigger] old_store[j];
                    match e {
                        StatusType::Trait => key_map(remaining@).contains_key(k) && key_map(remaining@)[k] is Trait,
                        StatusType::Status(t) => if fires(t, ticks) {
                            !has_key(remaining@, k) && removed@.contains(k)
                        } else {
                            key_map(remaining@).contains_key(k) && key_map(remaining@)[k] is Status
                                && key_map(remaining@)[k]->Status_0.spec_ticks() == t.spec_ticks() + ticks
                                && key_map(remaining@)[k]->Status_0.spec_duration() == t.spec_duration()
                        },
                    }
                } by {
                    if j < i {
                        assert(old_store[j].0 != kind);
                        let k = old_store[j].0;
                        if has_key(remaining@, k) {
                            let m = key_index(remaining@, k);
                            if m >= before_remaining.len() {
                                assert(remaining@[m].0 == kind);
                            }
                        }
                        if before_removed.contains(k) {
                            let m = choose|m: int| 0 <= m < before_removed.len() && before_removed[m] == k;
                            assert(removed@[m] == k);
                        }
                    }
                }
            }
            i = i + 1;
        }
        self.store = remaining;
        proof {
            let m = key_map(self.store@);
            assert forall|k: StatusKind| #[trigger] m.contains_key(k) implies key_map(old_store).contains_key(k) by {
                let mm = key_index(self.store@, k);
                let j = choose|j: int| 0 <= j < i && old_store[j].0 == self.store@[mm].0;
                assert(has_key(old_store, k));
            }
            assert forall|k: StatusKind| #[trigger] is_trait(key_map(old_store), k) implies is_trait(m, k) by {
                let j = key_index(old_store, k);
                lemma_key_map_index(old_store, j);
            }
            assert forall|k: StatusKind| #[trigger] is_status(key_map(old_store), k) implies {
                let t = key_map(old_store)[k]->Status_0;
                if fires(t, ticks) {
                    !m.contains_key(k) && removed@.contains(k)
                } else {
                    is_status(m, k) && m[k]->Status_0.spec_ticks() == t.spec_ticks() + ticks && m[k]->Status_0.spec_duration() == t.spec_duration()
                }
            } by {
                let j = key_index(old_store, k);
                lemma_key_map_index(old_store, j);
            }
            assert forall|j: int| 0 <= j < removed@.len() implies is_status(key_map(old_store), #[trigger] removed@[j]) && fires(key_map(old_store)[removed@[j]]->Status_0, ticks) by {
                let q = choose|q: int| 0 <= q < i && old_store[q].0 == removed@[j] && old_store[q].1 is Status && fires(old_store[q].1->Status_0, ticks);
                lemma_key_map_index(old_store, q);
            }
        }
        removed
    }

    /// Every held kind, ordered by declaration order.
    pub fn get_all(&self) -> (r: Vec<StatusKind>)
        requires
            self.wf(),
        ensures
            forall|k: StatusKind| self@.contains_key(k) <==> #[trigger] r@.contains(k),
            forall|a: int, b: int| 0 <= a < b < r@.len() ==> (#[trigger] r@[a]).index() < (#[trigger] r@[b]).index(),
    {
        let mut names: Vec<StatusKind> = Vec::new();
        let mut v: u32 = 0;
        while v < STATUS_KIND_COUNT
            invariant
                self.wf(),
                v <= STATUS_KIND_COUNT,
                forall|k: StatusKind| (self@.contains_key(k) && k.index() < v) <==> #[trigger] names@.contains(k),
                forall|a: int, b: int| 0 <= a < b < names@.len() ==> (#[trigger] names@[a]).index() < (#[trigger] names@[b]).index(),
                forall|a: int| 0 <= a < names@.len() ==> (#[trigger] names@[a]).index() < v,
            decreases STATUS_KIND_COUNT - v,
        {
            let kind = StatusKind::from_u32(v).unwrap();
            let ghost before = names@;
            if self.has(kind) {
                names.push(kind);
            }
            proof {
                assert forall|k: StatusKind| (self@.contains_key(k) && k.index() < v + 1) <==> #[trigger] names@.contains(k) by {
                    lemma_index_injective(k, kind);
                    let was = before.contains(k);
                    assert(was == (self@.contains_key(k) && k.index() < v));
                    if was {
                        let a = choose|a: int| 0 <= a < before.len() && before[a] == k;
                        assert(names@[a] == k);
                    }
                    if names@.contains(k) {
                        let a = choose|a: int| 0 <= a < names@.len() && names@[a] == k;
                        if a < before.len() {
                            assert(before[a] == k);
                        } else {
                            assert(k == kind);
                        }
                    }
                    if k == kind && self@.contains_key(k) {
                        assert(names@[names@.len() - 1] == k);
                    }
                }
            }
            v = v + 1;
        }
        names
    }

    /// The shown text of every held timed status that is shown to the
    /// player, each once (traits are not listed).
    pub fn get_all_display_status(&self) -> (r: Vec<String>)
        requires
            self.wf(),
        ensures
            exists|kinds: Seq<StatusKind>|
                #[trigger] kinds.len() == r@.len() && (forall|j: int| 0 <= j < kinds.len() ==> r@[j]@ == (#[trigger] kinds[j]).spec_description())
                    && (forall|a: int, b: int| 0 <= a < b < kinds.len() ==> #[trigger] kinds[a] != #[trigger] kinds[b])
                    && (forall|k: StatusKind| #[trigger] kinds.contains(k) <==> (is_status(self@, k) && k.spec_should_display())),
    {
        let mut shown: Vec<String> = Vec::new();
        let ghost mut kinds: Seq<StatusKind> = Seq::empty();
        let mut i: usize = 0;
        while i < self.store.len()
            invariant
                self.wf(),
                i <= self.store@.len(),
                kinds.len() == shown@.len(),
                forall|j: int| 0 <= j < kinds.len() ==> shown@[j]@ == (#[trigger] kinds[j]).spec_description(),
                forall|a: int, b: int| 0 <= a < b < kinds.len() ==> #[trigger] kinds[a] != #[trigger] kinds[b],
                forall|a: int| 0 <= a < kinds.len() ==> exists|j: int| 0 <= j < i && self.store@[j].0 == #[trigger] kinds[a],
                forall|k: StatusKind| #[trigger] kinds.contains(k) <==> (exists|j: int| 0 <= j < i && (#[trigger] self.store@[j]).0 == k && self.store@[j].1 is Status && k.spec_should_display()),
            decreases self.store@.len() - i,
        {
            let (kind, entry) = self.store[i];
            let ghost before = kinds;
            proof {
                assert forall|a: int| 0 <= a < before.len() implies #[trigger] before[a] != kind by {
                    let j = choose|j: int| 0 <= j < i && self.store@[j].0 == before[a];
                    assert(self.store@[j].0 != self.store@[i as int].0);
                }
            }
            let is_timed = match entry {
                StatusType::Status(_) => true,
                StatusType::Trait => false,
            };
            if is_timed && kind.should_display() {
                shown.push(kind.description());
                proof {
                    kinds = kinds.push(kind);
                }
            }
            proof {
                assert forall|a: int| 0 <= a < kinds.len() implies exists|j: int| 0 <= j < i + 1 && self.store@[j].0 == #[trigger] kinds[a] by {
                    if a < before.len() {
                        assert(kinds[a] == before[a]);
                        let j = choose|j: int| 0 <= j < i && self.store@[j].0 == before[a];
                        assert(self.store@[j].0 == kinds[a]);
                    } else {
                        assert(self.store@[i as int].0 == kinds[a]);
                    }
                }
                assert forall|k: StatusKind| #[trigger] kinds.contains(k) <==> (exists|j: int| 0 <= j < i + 1 && (#[trigger] self.store@[j]).0 == k && self.store@[j].1 is Status && k.spec_should_display()) by {
                    if before.contains(k) {
                        let a = choose|a: int| 0 <= a < before.len() && before[a] == k;
                        assert(kinds[a] == k);
                    }
                    if kinds.contains(k) && k != kind {
                        let a = choose|a: int| 0 <= a < kinds.len() && kinds[a] == k;
                        if a < before.len() {
                            assert(before[a] == k);
                        }
                    }
                    if k == kind && is_timed && kind.spec_should_display() {
                        assert(kinds[kinds.len() - 1] == k);
                    }
                }
            }
            i = i + 1;
        }
        proof {
            assert forall|k: StatusKind| #[trigger] kinds.contains(k) <==> (is_status(self@, k) && k.spec_should_display()) by {
                if is_status(self@, k) {
                    let j = key_index(self.store@, k);
                    lemma_key_map_index(self.store@, j);
                }
                if exists|j: int| 0 <= j < i && (#[trigger] self.store@[j]).0 == k && self.store@[j].1 is Status && k.spec_should_display() {
                    let j = choose|j: int| 0 <= j < i && (#[trigger] self.store@[j]).0 == k && self.store@[j].1 is Status && k.spec_should_display();
                    lemma_key_map_index(self.store@, j);
                }
            }
            assert(kinds.len() == shown@.len());
        }
        shown
    }
}

/// Toggling a trait on and then off again leaves the store as it was, and
/// toggling it on twice is the same as once.
pub proof fn lemma_toggle_round_trip(m: Map<StatusKind, StatusType>, kind: StatusKind)
    requires
        !m.contains_key(kind),
    ensures
        m.insert(kind, StatusType::Trait).remove(kind) == m,
        m.insert(kind, StatusType::Trait).insert(kind, StatusType::Trait) == m.insert(kind, StatusType::Trait),
{
    assert(m.insert(kind, StatusType::Trait).remove(kind) =~= m);
    assert(m.insert(kind, StatusType::Trait).insert(kind, StatusType::Trait) =~= m.insert(kind, StatusType::Trait));
}

} // verus!
