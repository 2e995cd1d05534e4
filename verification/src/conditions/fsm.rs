//! Conditions on the state of the observed state machine.

use vstd::prelude::*;
use crate::configs::{CheckCondition, FsmConfig, TriggerCondition};
use crate::event::{Event, EventType};
use crate::game_context::{Context, Fsm};

verus! {

/// The constraints on the machine state after a change and before it.
#[derive(Debug)]
pub struct FsmChange {
    pub new: Option<FsmConfig>,
    pub old: Option<FsmConfig>,
}

/// A condition on the machine state: on its change, or on its value. One
/// made for the one use never holds in the other.
#[derive(Debug)]
pub struct FsmCondition {
    pub trigger: Option<FsmChange>,
    /// The constraint on the state as it is.
    pub check: Option<FsmConfig>,
}

/// Whether a machine state meets a constraint that may be absent.
pub open spec fn fsm_meets(constraint: Option<FsmConfig>, fsm: Fsm) -> bool {
    constraint matches Some(c) ==> c.matches_spec(fsm)
}

fn check_fsm(constraint: &Option<FsmConfig>, fsm: &Fsm) -> (r: bool)
    ensures
        r == fsm_meets(*constraint, *fsm),
{
    match constraint {
        Some(c) => c.matches(fsm),
        None => true,
    }
}

impl FsmCondition {
    /// The condition on a change of the state. A configuration of another
    /// kind gives a condition that never fires.
    pub fn new_trigger(cond: TriggerCondition) -> (r: Self)
        ensures
            r.check.is_none(),
            r.trigger == match cond {
                TriggerCondition::Fsm { new, old } => Some(FsmChange { new, old }),
                _ => None,
            },
    {
        match cond {
            TriggerCondition::Fsm { new, old } => FsmCondition {
                trigger: Some(FsmChange { new, old }),
                check: None,
            },
            _ => FsmCondition { trigger: None, check: None },
        }
    }

    /// The condition on the state as it is. A configuration of another kind
    /// gives a condition that never holds.
    pub fn new_check(cond: CheckCondition) -> (r: Self)
        ensures
            r.trigger.is_none(),
            r.check == match cond {
                CheckCondition::Fsm { value } => Some(value),
                _ => None,
            },
    {
        match cond {
            CheckCondition::Fsm { value } => FsmCondition { trigger: None, check: Some(value) },
            _ => FsmCondition { trigger: None, check: None },
        }
    }

    /// Fires on a change of the state whose new and old state each meet
    /// their constraint, as far as one is set.
    pub open spec fn fires_spec(&self, event: Event) -> bool {
        &&& self.trigger matches Some(change)
        &&& event matches Event::FsmChanged { new, old }
        &&& fsm_meets(change.new, new)
        &&& fsm_meets(change.old, old)
    }

    /// Holds while the machine is in a state that meets the constraint.
    pub open spec fn holds_spec(&self, ctx: Context) -> bool {
        &&& self.check matches Some(value)
        &&& value.matches_spec(ctx.fsm)
    }

    /// Tests an event against the condition.
    pub fn fires(&self, event: &Event) -> (r: bool)
        ensures
            r == self.fires_spec(*event),
    {
        match &self.trigger {
            Some(change) => match event {
                Event::FsmChanged { new, old } => check_fsm(&change.new, new) && check_fsm(
                    &change.old,
                    old,
                ),
                _ => false,
            },
            None => false,
        }
    }

    /// Tests the snapshot against the condition.
    pub fn holds(&self, ctx: &Context) -> (r: bool)
        ensures
            r == self.holds_spec(*ctx),
    {
        match &self.check {
            Some(value) => value.matches(&ctx.fsm),
            None => false,
        }
    }

    /// The kind of event that the condition is about.
    pub fn event_type(&self) -> (r: EventType)
        ensures
            r == EventType::FsmChanged,
    {
        EventType::FsmChanged
    }
}

} // verus!
