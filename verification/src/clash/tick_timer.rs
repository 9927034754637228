use vstd::prelude::*;

use crate::clash::time::BASE_ACTION_COST;

verus! {

/// Counts ticks towards a period (`duration`): it fires each time the
/// accumulated ticks reach the period, keeping the overshoot.
#[derive(Clone, Copy)]
pub struct TickTimer {
    ticks: i32,
    duration: i32,
}

impl TickTimer {
    /// The ticks accumulated since the timer last fired.
    pub closed spec fn spec_ticks(&self) -> i32 {
        self.ticks
    }

    /// The timer's period.
    pub closed spec fn spec_duration(&self) -> i32 {
        self.duration
    }

    /// A timer with the period of one base action.
    pub fn init() -> (r: TickTimer)
        ensures
            r.spec_ticks() == 0,
            r.spec_duration() == BASE_ACTION_COST,
    {
        TickTimer { ticks: 0, duration: BASE_ACTION_COST }
    }

    /// A timer with period `duration`.
    pub fn init_with_duration(duration: i32) -> (r: TickTimer)
        ensures
            r.spec_ticks() == 0,
            r.spec_duration() == duration,
    {
        TickTimer { ticks: 0, duration }
    }

    /// Whether adding `ticks_to_add` ticks can be applied: the sum fits, and
    /// it stays below two periods (a timer fires at most once per call).
    pub open spec fn can_apply(&self, ticks_to_add: i32) -> bool {
        &&& i32::MIN <= self.spec_ticks() + ticks_to_add <= i32::MAX
        &&& i32::MIN <= self.spec_duration() * 2 <= i32::MAX
        &&& self.spec_ticks() + ticks_to_add < self.spec_duration() * 2
    }

    /// Adds ticks; returns whether the timer fired, in which case one period is
    /// taken off the accumulated ticks.
    pub fn apply_ticks(&mut self, ticks_to_add: i32) -> (r: bool)
        requires
            old(self).can_apply(ticks_to_add),
        ensures
            r == (old(self).spec_ticks() + ticks_to_add >= old(self).spec_duration()),
            final(self).spec_duration() == old(self).spec_duration(),
            final(self).spec_ticks() == if r {
                old(self).spec_ticks() + ticks_to_add - old(self).spec_duration()
            } else {
                old(self).spec_ticks() + ticks_to_add
            },
    {
        self.ticks = self.ticks + ticks_to_add;
        // Firing twice in one call is not handled
        if self.ticks >= self.duration {
            self.ticks = self.ticks - self.duration;
            true
        } else {
            false
        }
    }

    /// The timer's period.
    pub fn duration(&self) -> (r: i32)
        ensures
            r == self.spec_duration(),
    {
        self.duration
    }

    /// Lengthens the period to `duration` if that is longer; never shortens it.
    pub fn extend_to_duration(&mut self, duration: i32)
        ensures
            final(self).spec_duration() == if duration > old(self).spec_duration() {
                duration
            } else {
                old(self).spec_duration()
            },
            final(self).spec_ticks() == old(self).spec_ticks(),
    {
        if duration > self.duration {
            self.duration = duration;
        }
    }
}

/// Applying a non-negative number of ticks keeps the accumulated ticks
/// within one period: `0 <= ticks < duration` holds afterwards when it held
/// before.
pub proof fn lemma_apply_keeps_ticks_in_period(before: TickTimer, after: TickTimer, ticks_to_add: i32, fired: bool)
    requires
        before.can_apply(ticks_to_add),
        0 <= before.spec_ticks() < before.spec_duration(),
        0 <= ticks_to_add,
        after.spec_duration() == before.spec_duration(),
        fired == (before.spec_ticks() + ticks_to_add >= before.spec_duration()),
        after.spec_ticks() == if fired {
            before.spec_ticks() + ticks_to_add - before.spec_duration()
        } else {
            before.spec_ticks() + ticks_to_add
        },
    ensures
        0 <= after.spec_ticks() < after.spec_duration(),
{
}

} // verus!
