use rand::rngs::StdRng;
use rand::seq::SliceRandom;
use rand::Rng;
use vstd::prelude::*;

verus! {

/// Sides of each strength die (the dice are two-sided: 1 or 2).
pub const STRENGTH_DICE_SIDES: u32 = 2;

/// The random-number generator the battle rules roll with.
#[verifier::external_type_specification]
#[verifier::external_body]
pub struct ExStdRng(StdRng);

/// Draws a value from `low` up to but not including `high` with
/// `rand::Rng::gen_range` on `rng`. The contract claims only what holds of
/// every draw: the value lies in that range (`gen_range` panics when
/// `low >= high`, which `requires` leaves out).
#[verifier::external_body]
pub(crate) fn gen_range_u32(rng: &mut StdRng, low: u32, high: u32) -> (r: u32)
    requires
        low < high,
    ensures
        low <= r < high,
{
    rng.gen_range(low, high)
}

/// `SliceRandom::shuffle` of rand on `items` with `rng`: puts them in a
/// random order. The contract claims what holds of every order: the same
/// items, each as often.
#[verifier::external_body]
pub(crate) fn shuffle<T>(items: &mut Vec<T>, rng: &mut StdRng)
    ensures
        final(items)@.to_multiset() == old(items)@.to_multiset(),
{
    items.shuffle(rng);
}

/// A number of strength dice. Half of the dice (rounded down) always count
/// their full value; the others are rolled.
#[derive(Clone, Copy)]
pub struct Strength {
    pub dice: u32,
}

impl Strength {
    /// `dice` strength dice.
    pub fn init(dice: u32) -> (r: Strength)
        ensures
            r.dice == dice,
    {
        Strength { dice }
    }

    /// The number of dice that always count their full value.
    pub open spec fn fixed_count(self) -> int {
        (self.dice / 2) as int
    }

    /// The number of dice that are rolled.
    pub open spec fn open_count(self) -> int {
        self.dice - self.dice / 2
    }

    /// Whether `open_value` is a possible sum of the rolled dice.
    pub open spec fn valid_open_value(self, open_value: int) -> bool {
        self.open_count() <= open_value <= self.open_count() * STRENGTH_DICE_SIDES
    }

    /// The total for a roll whose rolled dice summed to `open_value`.
    pub open spec fn spec_total(self, open_value: int) -> int {
        self.fixed_count() * STRENGTH_DICE_SIDES + open_value
    }

    /// Whether this strength can be rolled without overflow.
    pub open spec fn can_roll(self) -> bool {
        self.dice * STRENGTH_DICE_SIDES <= u32::MAX
    }

    /// Whether `v` is a possible roll of this strength: between
    /// `dice + dice / 2` and `2 * dice`.
    pub open spec fn possible_roll(self, v: int) -> bool {
        exists|o: int| self.valid_open_value(o) && v == #[trigger] self.spec_total(o)
    }

    /// The total of a roll whose rolled dice summed to `open_value`.
    pub fn total_with_open_value(&self, open_value: u32) -> (r: u32)
        requires
            self.can_roll(),
            self.valid_open_value(open_value as int),
        ensures
            r == self.spec_total(open_value as int),
    {
        let fixed_count = self.dice / 2;
        let fixed_value = fixed_count * STRENGTH_DICE_SIDES;
        fixed_value + open_value
    }

    /// Rolls this strength: the fixed dice count 2 each, the open dice are
    /// drawn with `rng` and sum to between one and two per die.
    pub fn roll(&self, rng: &mut StdRng) -> (r: u32)
        requires
            self.can_roll(),
        ensures
            self.possible_roll(r as int),
            self.dice + self.dice / 2 <= r <= 2 * self.dice,
    {
        let fixed_count = self.dice / 2;
        let open_count = self.dice - fixed_count;
        let open_value = gen_range_u32(rng, open_count, (open_count * STRENGTH_DICE_SIDES) + 1);
        let r = self.total_with_open_value(open_value);
        assert(self.spec_total(open_value as int) == r);
        r
    }
}

/// Every possible roll lies between `dice + dice / 2` and `2 * dice`, and
/// both ends are possible.
pub proof fn lemma_roll_range(s: Strength, v: int)
    ensures
        s.possible_roll(v) ==> s.dice + s.dice / 2 <= v <= 2 * s.dice,
        s.possible_roll(s.dice + s.dice / 2),
        s.possible_roll(2 * s.dice),
{
    assert(s.spec_total(s.open_count()) == s.dice + s.dice / 2);
    assert(s.spec_total(s.open_count() * 2) == 2 * s.dice);
}

} // verus!
