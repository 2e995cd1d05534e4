//! The condition on the use of an item.

use vstd::prelude::*;
use crate::configs::{TriggerCondition, ValueCmp};
use crate::event::{Event, EventType};

verus! {

/// Fires when an item is used whose id meets the constraint.
#[derive(Debug)]
pub struct UseItemCondition {
    /// The constraint on the item's id.
    pub trigger: Option<ValueCmp>,
}

impl UseItemCondition {
    /// A configuration of another kind gives a condition that never fires.
    pub fn new_trigger(cond: TriggerCondition) -> (r: Self)
        ensures
            r.trigger == match cond {
                TriggerCondition::UseItem { item_id } => Some(item_id),
                _ => None,
            },
    {
        match cond {
            TriggerCondition::UseItem { item_id } => UseItemCondition { trigger: Some(item_id) },
            _ => UseItemCondition { trigger: None },
        }
    }

    /// Fires on the use of an item whose id meets the constraint.
    pub open spec fn fires_spec(&self, event: Event) -> bool {
        &&& self.trigger matches Some(wanted)
        &&& event matches Event::UseItem { item_id }
        &&& wanted.matches_spec(item_id)
    }

    /// Tests an event against the condition.
    pub fn fires(&self, event: &Event) -> (r: bool)
        ensures
            r == self.fires_spec(*event),
    {
        match &self.trigger {
            Some(wanted) => match event {
                Event::UseItem { item_id } => wanted.matches(*item_id),
                _ => false,
            },
            None => false,
        }
    }

    /// The kind of event that the condition is about.
    pub fn event_type(&self) -> (r: EventType)
        ensures
            r == EventType::UseItem,
    {
        EventType::UseItem
    }
}

} // verus!
