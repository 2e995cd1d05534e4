//! Conditions on the kind of the weapon.

use vstd::prelude::*;
use crate::configs::{CheckCondition, TriggerCondition, ValueCmp};
use crate::event::{Event, EventType};
use crate::game_context::Context;

verus! {

/// A condition on the weapon kind: on its change, or on its value. One made
/// for the one use never holds in the other.
#[derive(Debug)]
pub struct WeaponTypeCondition {
    /// The constraint on the kind after a change.
    pub trigger: Option<ValueCmp>,
    /// The constraint on the kind as it is.
    pub check: Option<ValueCmp>,
}

impl WeaponTypeCondition {
    /// The condition on a change of the kind. A configuration of another
    /// kind gives a condition that never fires.
    pub fn new_trigger(cond: TriggerCondition) -> (r: Self)
        ensures
            r.check.is_none(),
            r.trigger == match cond {
                TriggerCondition::WeaponType { value } => Some(value),
                _ => None,
            },
    {
        match cond {
            TriggerCondition::WeaponType { value } => WeaponTypeCondition {
                trigger: Some(value),
                check: None,
            },
            _ => WeaponTypeCondition { trigger: None, check: None },
        }
    }

    /// The condition on the kind as it is. A configuration of another kind
    /// gives a condition that never holds.
    pub fn new_check(cond: CheckCondition) -> (r: Self)
        ensures
            r.trigger.is_none(),
            r.check == match cond {
                CheckCondition::WeaponType { value } => Some(value),
                _ => None,
            },
    {
        match cond {
            CheckCondition::WeaponType { value } => WeaponTypeCondition {
                trigger: None,
                check: Some(value),
            },
            _ => WeaponTypeCondition { trigger: None, check: None },
        }
    }

    /// Fires on a change of the weapon to a kind that meets the constraint.
    pub open spec fn fires_spec(&self, event: Event) -> bool {
        &&& self.trigger matches Some(value)
        &&& event matches Event::WeaponTypeChanged { new, .. }
        &&& value.matches_spec(new)
    }

    /// Holds while the weapon held is of a kind that meets the constraint.
    pub open spec fn holds_spec(&self, ctx: Context) -> bool {
        &&& self.check matches Some(value)
        &&& value.matches_spec(ctx.weapon_type)
    }

    /// Tests an event against the condition.
    pub fn fires(&self, event: &Event) -> (r: bool)
        ensures
            r == self.fires_spec(*event),
    {
        match &self.trigger {
            Some(value) => match event {
                Event::WeaponTypeChanged { new, .. } => value.matches(*new),
                _ => false,
            },
            None => false,
        }
    }

    /// Tests the snapshot against the condition.
    pub fn holds(&self, ctx: &Context) -> (r: bool)
        ensures
            r == self.holds_spec(*ctx),
    {
        match &self.check {
            Some(value) => value.matches(ctx.weapon_type),
            None => false,
        }
    }

    /// The kind of event that the condition is about.
    pub fn event_type(&self) -> (r: EventType)
        ensures
            r == EventType::WeaponTypeChanged,
    {
        EventType::WeaponTypeChanged
    }
}

} // verus!
