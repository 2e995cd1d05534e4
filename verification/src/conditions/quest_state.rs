//! Conditions on the phase of the quest.

use vstd::prelude::*;
use crate::conditions::same_text;
use crate::configs::{CheckCondition, TriggerCondition, ValueCmp};
use crate::event::{Event, EventType};
use crate::game_context::Context;

verus! {

/// The phase in which the player is in the quest.
pub const QUEST_JOINED: i32 = 2;

/// The phase in which the player has left the quest and is back at the hub.
pub const QUEST_LEFT: i32 = 1;

/// The phase in which the quest has succeeded.
pub const QUEST_SUCCEEDED: i32 = 3;

/// The phase that a name stands for, if it is the name of one.
pub open spec fn named_phase(name: Seq<char>) -> Option<i32> {
    if name == "join"@ {
        Some(QUEST_JOINED)
    } else if name == "leaved"@ {
        Some(QUEST_LEFT)
    } else if name == "success"@ {
        Some(QUEST_SUCCEEDED)
    } else {
        None
    }
}

/// The constraint on the new phase that a configured one stands for: the
/// phase that a name names, nothing for a name that names none, and any
/// other constraint as it is.
pub open spec fn resolved(value: ValueCmp) -> Option<ValueCmp> {
    match value {
        ValueCmp::Special(name) => match named_phase(name@) {
            Some(phase) => Some(ValueCmp::EqInt(phase)),
            None => None,
        },
        _ => Some(value),
    }
}

/// A condition on the quest phase: on its change, or on its value. One made
/// for the one use never holds in the other.
#[derive(Debug)]
pub struct QuestStateCondition {
    /// The constraint on the phase after a change, names resolved.
    pub trigger: Option<ValueCmp>,
    /// The constraint on the phase as it is.
    pub check: Option<ValueCmp>,
}

impl QuestStateCondition {
    /// The condition on a change of the phase. A name in the constraint is
    /// resolved here. A name that names no phase, and a configuration of
    /// another kind, give a condition that never fires.
    pub fn new_trigger(cond: TriggerCondition) -> (r: Self)
        ensures
            r.check.is_none(),
            r.trigger == match cond {
                TriggerCondition::QuestState { value } => resolved(value),
                _ => None,
            },
    {
        match cond {
            TriggerCondition::QuestState { value } => {
                let trigger: Option<ValueCmp> = match value {
                    ValueCmp::Special(name) => {
                        if same_text(name.as_str(), "join") {
                            Some(ValueCmp::EqInt(QUEST_JOINED))
                        } else if same_text(name.as_str(), "leaved") {
                            Some(ValueCmp::EqInt(QUEST_LEFT))
                        } else if same_text(name.as_str(), "success") {
                            Some(ValueCmp::EqInt(QUEST_SUCCEEDED))
                        } else {
                            None
                        }
                    },
                    other => Some(other),
                };
                QuestStateCondition { trigger, check: None }
            },
            _ => QuestStateCondition { trigger: None, check: None },
        }
    }

    /// The condition on the phase as it is. No name is resolved here. A
    /// configuration of another kind gives a condition that never holds.
    pub fn new_check(cond: CheckCondition) -> (r: Self)
        ensures
            r.trigger.is_none(),
            r.check == match cond {
                CheckCondition::QuestState { value } => Some(value),
                _ => None,
            },
    {
        match cond {
            CheckCondition::QuestState { value } => QuestStateCondition {
                trigger: None,
                check: Some(value),
            },
            _ => QuestStateCondition { trigger: None, check: None },
        }
    }

    /// Fires on a change of the phase to one that meets the constraint.
    pub open spec fn fires_spec(&self, event: Event) -> bool {
        &&& self.trigger matches Some(value)
        &&& event matches Event::QuestStateChanged { new, .. }
        &&& value.matches_spec(new)
    }

    /// Holds while the phase meets the constraint.
    pub open spec fn holds_spec(&self, ctx: Context) -> bool {
        &&& self.check matches Some(value)
        &&& value.matches_spec(ctx.quest_state)
    }

    /// Tests an event against the condition.
    pub fn fires(&self, event: &Event) -> (r: bool)
        ensures
            r == self.fires_spec(*event),
    {
        match &self.trigger {
            Some(value) => match event {
                Event::QuestStateChanged { new, .. } => value.matches(*new),
                _ => false,
            },
            None => false,
        }
    }

    /// Tests the snapshot against the condition.
    pub fn holds(&self, ctx: &Context) -> (r: bool)
        ensures
            r == self.holds_spec(*ctx),
    {
        match &self.check {
            Some(value) => value.matches(ctx.quest_state),
            None => false,
        }
    }

    /// The kind of event that the condition is about.
    pub fn event_type(&self) -> (r: EventType)
        ensures
            r == EventType::QuestStateChanged,
    {
        EventType::QuestStateChanged
    }
}

} // verus!
