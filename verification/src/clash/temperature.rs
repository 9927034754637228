use vstd::prelude::*;

use crate::clash::strength::STRENGTH_DICE_SIDES;
use crate::clash::tick_timer::TickTimer;

verus! {

/// The neutral temperature that characters drift back to.
pub const TEMPERATURE_MIDPOINT: i32 = 0;
/// Above this temperature a character burns.
pub const TEMPERATURE_BURN_POINT: i32 = 100;
/// Below this temperature a character freezes.
pub const TEMPERATURE_FREEZE_POINT: i32 = -100;
/// How long a burn lasts before it is checked again.
pub const BURN_DURATION: i32 = 100;
/// Dice of damage a burn deals each time it is checked.
pub const TEMPERATURE_DAMAGE_PER_TICK: u32 = 2;
/// Temperature change per die of incoming damage.
pub const TEMPERATURE_PER_DICE_DAMAGE: i32 = 5;
/// Temperature lost towards the midpoint each turn.
pub const TEMPERATURE_LOST_PER_TURN: i32 = 13;

/// A character's temperature and the timer that paces its drift back to the
/// midpoint.
#[derive(Clone)]
pub struct Temperature {
    current_temperature: i32,
    timer: TickTimer,
}

/// Which way incoming damage moves the temperature.
pub enum TemperatureDirection {
    Heat,
    Cool,
}

/// The temperature change for `damage` points of incoming damage: five per
/// two points (one die), up for heat and down for cold.
pub open spec fn spec_temperature_delta(damage: u32, direction: TemperatureDirection) -> int {
    let dice = (damage / STRENGTH_DICE_SIDES) as int;
    match direction {
        TemperatureDirection::Heat => dice * TEMPERATURE_PER_DICE_DAMAGE,
        TemperatureDirection::Cool => -dice * TEMPERATURE_PER_DICE_DAMAGE,
    }
}

/// The temperature after one turn's drift towards the midpoint, never
/// passing it.
pub open spec fn spec_reduced(t: int) -> int {
    if t > TEMPERATURE_MIDPOINT {
        if t - TEMPERATURE_LOST_PER_TURN > 0 {
            t - TEMPERATURE_LOST_PER_TURN
        } else {
            0
        }
    } else {
        if t + TEMPERATURE_LOST_PER_TURN < 0 {
            t + TEMPERATURE_LOST_PER_TURN
        } else {
            0
        }
    }
}

impl Temperature {
    /// The current temperature.
    pub closed spec fn spec_current(&self) -> i32 {
        self.current_temperature
    }

    /// The timer pacing the drift.
    pub closed spec fn spec_timer(&self) -> TickTimer {
        self.timer
    }

    /// The midpoint temperature, with a timer of one base action.
    pub fn init() -> (r: Temperature)
        ensures
            r.spec_current() == TEMPERATURE_MIDPOINT,
            r.spec_timer().spec_ticks() == 0,
            r.spec_timer().spec_duration() == crate::clash::time::BASE_ACTION_COST,
    {
        Temperature { current_temperature: TEMPERATURE_MIDPOINT, timer: TickTimer::init() }
    }

    /// Changes the temperature for `damage` points of incoming damage.
    pub fn change_from_incoming_damage(&mut self, damage: u32, direction: TemperatureDirection)
        requires
            (damage / STRENGTH_DICE_SIDES) * TEMPERATURE_PER_DICE_DAMAGE <= i32::MAX,
            i32::MIN <= old(self).spec_current() + spec_temperature_delta(damage, direction) <= i32::MAX,
        ensures
            final(self).spec_current() == old(self).spec_current() + spec_temperature_delta(damage, direction),
            final(self).spec_timer() == old(self).spec_timer(),
    {
        // Four strength, ten shots, half resisted should tip a character over (20 dice)
        let dice: u32 = damage / STRENGTH_DICE_SIDES;
        proof {
            assert(dice * 5 <= (u32::MAX / 2) * 5) by (nonlinear_arith)
                requires
                    dice <= u32::MAX / 2,
            ;
        }
        let delta: i64 = match direction {
            TemperatureDirection::Heat => dice as i64 * TEMPERATURE_PER_DICE_DAMAGE as i64,
            TemperatureDirection::Cool => -(dice as i64) * TEMPERATURE_PER_DICE_DAMAGE as i64,
        };
        self.current_temperature = (self.current_temperature as i64 + delta) as i32;
    }

    /// Drifts the temperature one turn's worth towards the midpoint.
    pub fn reduce_temperature(&mut self)
        ensures
            final(self).spec_current() == spec_reduced(old(self).spec_current() as int),
            final(self).spec_timer() == old(self).spec_timer(),
    {
        // Eight turns take a character from 100 or -100 back to 0: 100 / 8 = 13
        if self.current_temperature > TEMPERATURE_MIDPOINT {
            let t = self.current_temperature - TEMPERATURE_LOST_PER_TURN;
            self.current_temperature = if t > 0 {
                t
            } else {
                0
            };
        } else {
            let t = self.current_temperature + TEMPERATURE_LOST_PER_TURN;
            self.current_temperature = if t < 0 {
                t
            } else {
                0
            };
        }
    }

    /// Whether the character is hot enough to burn.
    pub fn is_burning(&self) -> (r: bool)
        ensures
            r == (self.spec_current() > TEMPERATURE_BURN_POINT),
    {
        self.current_temperature > TEMPERATURE_BURN_POINT
    }

    /// Whether the character is cold enough to freeze.
    pub fn is_freezing(&self) -> (r: bool)
        ensures
            r == (self.spec_current() < TEMPERATURE_FREEZE_POINT),
    {
        self.current_temperature < TEMPERATURE_FREEZE_POINT
    }

    /// Advances the drift timer; returns whether a drift step is due.
    pub fn is_ready(&mut self, ticks_to_add: i32) -> (r: bool)
        requires
            old(self).spec_timer().can_apply(ticks_to_add),
        ensures
            r == (old(self).spec_timer().spec_ticks() + ticks_to_add >= old(self).spec_timer().spec_duration()),
            final(self).spec_current() == old(self).spec_current(),
            final(self).spec_timer().spec_duration() == old(self).spec_timer().spec_duration(),
            final(self).spec_timer().spec_ticks() == if r {
                old(self).spec_timer().spec_ticks() + ticks_to_add - old(self).spec_timer().spec_duration()
            } else {
                old(self).spec_timer().spec_ticks() + ticks_to_add
            },
    {
        self.timer.apply_ticks(ticks_to_add)
    }

    /// The current temperature.
    pub fn current_temperature(&self) -> (r: i32)
        ensures
            r == self.spec_current(),
    {
        self.current_temperature
    }

    /// Sets the current temperature.
    pub fn set_temperature(&mut self, temperature: i32)
        ensures
            final(self).spec_current() == temperature,
            final(self).spec_timer() == old(self).spec_timer(),
    {
        self.current_temperature = temperature;
    }
}

/// A drift step moves the temperature towards the midpoint without passing
/// it: it stays on the same side (or reaches the midpoint), it never moves
/// away, and it reaches the midpoint from within one step of it.
pub proof fn lemma_reduce_towards_midpoint(t: int)
    ensures
        t > 0 ==> 0 <= spec_reduced(t) < t,
        t < 0 ==> t < spec_reduced(t) <= 0,
        t == 0 ==> spec_reduced(t) == 0,
        -TEMPERATURE_LOST_PER_TURN <= t <= TEMPERATURE_LOST_PER_TURN ==> spec_reduced(t) == 0,
{
}

/// Enough drift steps bring any temperature back to the midpoint: `n` steps
/// from `t` end at the midpoint once `13 * n >= |t|`.
pub proof fn lemma_drift_reaches_midpoint(t: int, n: nat)
    requires
        TEMPERATURE_LOST_PER_TURN * n >= (if t < 0 { -t } else { t }),
    ensures
        spec_drift(t, n) == 0,
    decreases n,
{
    if n > 0 {
        lemma_drift_reaches_midpoint(spec_reduced(t), (n - 1) as nat);
    }
}

/// The temperature after `n` drift steps from `t`.
pub open spec fn spec_drift(t: int, n: nat) -> int
    decreases n,
{
    if n == 0 {
        t
    } else {
        spec_drift(spec_reduced(t), (n - 1) as nat)
    }
}

} // verus!
