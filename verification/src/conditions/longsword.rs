//! Conditions on the level of the long sword.

use vstd::prelude::*;
use crate::conditions::{check_value, meets};
use crate::configs::{CheckCondition, NewOldValueCmp, TriggerCondition, ValueCmp};
use crate::event::{Event, EventType};
use crate::game_context::{Context, WEAPON_LONG_SWORD};

verus! {

/// A condition on the long sword's level: on its change, or on its value.
/// One made for the one use never holds in the other.
#[derive(Debug)]
pub struct LongswordCondition {
    /// The constraints on the level after a change and before it.
    pub trigger: Option<NewOldValueCmp>,
    /// The constraint on the level as it is.
    pub check: Option<ValueCmp>,
}

impl LongswordCondition {
    /// The condition on a change of the level. A configuration of another
    /// kind gives a condition that never fires.
    pub fn new_trigger(cond: TriggerCondition) -> (r: Self)
        ensures
            r.check.is_none(),
            r.trigger == match cond {
                TriggerCondition::LongswordLevelChanged { new, old } => Some(
                    NewOldValueCmp { new, old },
                ),
                _ => None,
            },
    {
        match cond {
            TriggerCondition::LongswordLevelChanged { new, old } => LongswordCondition {
                trigger: Some(NewOldValueCmp { new, old }),
                check: None,
            },
            _ => LongswordCondition { trigger: None, check: None },
        }
    }

    /// The condition on the level as it is. A configuration of another kind
    /// gives a condition that never holds.
    pub fn new_check(cond: CheckCondition) -> (r: Self)
        ensures
            r.trigger.is_none(),
            r.check == match cond {
                CheckCondition::LongswordLevel { value } => Some(value),
                _ => None,
            },
    {
        match cond {
            CheckCondition::LongswordLevel { value } => LongswordCondition {
                trigger: None,
                check: Some(value),
            },
            _ => LongswordCondition { trigger: None, check: None },
        }
    }

    /// Fires on a change of the level whose new and old value meet the constraints.
    pub open spec fn fires_spec(&self, event: Event) -> bool {
        &&& self.trigger matches Some(pair)
        &&& event matches Event::LongswordLevelChanged { new, old }
        &&& meets(pair.new, new)
        &&& meets(pair.old, old)
    }

    /// Holds while a long sword is held and its level meets the constraint.
    pub open spec fn holds_spec(&self, ctx: Context) -> bool {
        &&& self.check matches Some(value)
        &&& ctx.weapon_type == WEAPON_LONG_SWORD
        &&& value.matches_spec(ctx.longsword_level)
    }

    /// Tests an event against the condition.
    pub fn fires(&self, event: &Event) -> (r: bool)
        ensures
            r == self.fires_spec(*event),
    {
        match &self.trigger {
            Some(pair) => match event {
                Event::LongswordLevelChanged { new, old } => check_value(&pair.new, *new)
                    && check_value(&pair.old, *old),
                _ => false,
            },
            None => false,
        }
    }

    /// Tests the snapshot against the condition.
    pub fn holds(&self, ctx: &Context) -> (r: bool)
        ensures
            r == self.holds_spec(*ctx),
    {
        match &self.check {
            Some(value) => ctx.weapon_type == WEAPON_LONG_SWORD && value.matches(
                ctx.longsword_level,
            ),
            None => false,
        }
    }

    /// The kind of event that the condition is about.
    pub fn event_type(&self) -> (r: EventType)
        ensures
            r == EventType::LongswordLevelChanged,
    {
        EventType::LongswordLevelChanged
    }
}

} // verus!
