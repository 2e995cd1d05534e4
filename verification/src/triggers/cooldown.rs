//! The cooldown of a trigger.

use vstd::prelude::*;
use crate::clock::{now_millis, period, period_millis};

verus! {

/// The cooldown of one trigger: it remembers when the trigger last fired
/// and lets it fire again only after the cooldown.
#[derive(Debug)]
pub struct SingleCoolDown {
    /// The cooldown, in milliseconds.
    pub cooldown: i64,
    /// When the trigger last fired, in milliseconds since the start of
    /// 1970; `None` before it ever did, and after a reset.
    pub record: Option<i64>,
}

impl SingleCoolDown {
    /// A cooldown of `cooldown` milliseconds, for a trigger that has not fired yet.
    pub fn new(cooldown: i64) -> (r: Self)
        ensures
            r.cooldown == cooldown,
            r.record.is_none(),
    {
        Self { cooldown, record: None }
    }

    /// Forgets when the trigger last fired: the next check passes.
    pub fn reset(&mut self)
        ensures
            final(self).cooldown == old(self).cooldown,
            final(self).record.is_none(),
    {
        self.record = None;
    }

    /// Whether the trigger may fire at the time `now`: always before it
    /// ever fired, and later once the cooldown has passed since it last did.
    pub open spec fn ready(&self, now: i64) -> bool {
        match self.record {
            None => true,
            Some(last) => last + period(self.cooldown) <= now,
        }
    }

    /// The cooldown after a check at the time `now`: a check that passes
    /// counts as firing.
    pub open spec fn checked(&self, now: i64) -> SingleCoolDown {
        if self.ready(now) {
            SingleCoolDown { cooldown: self.cooldown, record: Some(now) }
        } else {
            *self
        }
    }

    /// Checks the cooldown at the time `now`, and starts it anew if the check passes.
    pub fn check_set_at(&mut self, now: i64) -> (r: bool)
        ensures
            r == old(self).ready(now),
            *final(self) == old(self).checked(now),
    {
        let wait: i64 = period_millis(self.cooldown);
        let passed: bool = match self.record {
            None => true,
            Some(last) => (last as i128) + (wait as i128) <= (now as i128),
        };
        if passed {
            self.record = Some(now);
        }
        passed
    }

    /// Checks the cooldown at the time that the clock shows, and starts it
    /// anew if the check passes. Before the trigger ever fired the check
    /// passes, whatever the clock shows.
    pub fn check_set(&mut self) -> (r: bool)
        ensures
            final(self).cooldown == old(self).cooldown,
            old(self).record.is_none() ==> r,
            r ==> final(self).record.is_some(),
            !r ==> final(self).record == old(self).record,
            exists|now: i64|
                r == old(self).ready(now) && *final(self) == #[trigger] old(self).checked(now),
    {
        let now: i64 = now_millis();
        let r: bool = self.check_set_at(now);
        r
    }
}

/// The first check of a new cooldown passes. A second check at the same
/// time does not, if the cooldown is longer than nothing. A check that
/// comes when the cooldown has passed since the first does pass, and the
/// cooldown then runs from that check.
pub proof fn lemma_cooldown_passes_first_then_after_the_period(
    cooldown: i64,
    first: i64,
    later: i64,
)
    ensures
        ({
            let fresh = SingleCoolDown { cooldown, record: None };
            let started = fresh.checked(first);
            &&& fresh.ready(first)
            &&& started.record == Some(first)
            &&& cooldown > 0 ==> !started.ready(first) && started.checked(first) == started
            &&& later >= first + period(cooldown) ==> started.ready(later) && started.checked(
                later,
            ).record == Some(later)
            &&& later < first + period(cooldown) ==> !started.ready(later)
        }),
{
}

} // verus!
