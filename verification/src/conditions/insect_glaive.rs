//! The condition on the extracts of the insect glaive.

use vstd::prelude::*;
use crate::conditions::{compare_cfg_gauge, pair_meets};
use crate::configs::{NewOldValueCmp, TriggerCondition};
use crate::event::{Event, EventType};
use crate::game_context::Context;

verus! {

/// Fires on a change of the extracts after which the time left on each,
/// and the time that was left before, meet the constraints.
#[derive(Debug)]
pub struct InsectGlaiveCondition {
    /// Whether the condition was made from a configuration of its kind.
    /// One that was not never fires.
    pub active: bool,
    pub cond_red: Option<NewOldValueCmp>,
    pub cond_white: Option<NewOldValueCmp>,
    pub cond_yellow: Option<NewOldValueCmp>,
}

impl InsectGlaiveCondition {
    /// A configuration of another kind gives a condition that never fires.
    pub fn new_trigger(cond: TriggerCondition) -> (r: Self)
        ensures
            match cond {
                TriggerCondition::InsectGlaiveLight { red, white, yellow } => r.active
                    && r.cond_red == red && r.cond_white == white && r.cond_yellow == yellow,
                _ => !r.active,
            },
    {
        match cond {
            TriggerCondition::InsectGlaiveLight { red, white, yellow } => InsectGlaiveCondition {
                active: true,
                cond_red: red,
                cond_white: white,
                cond_yellow: yellow,
            },
            _ => InsectGlaiveCondition {
                active: false,
                cond_red: None,
                cond_white: None,
                cond_yellow: None,
            },
        }
    }

    /// The timers of the snapshot are compared with those of the snapshot
    /// before it, each with its fraction cut off. With no snapshot before,
    /// nothing has changed and the condition does not fire.
    pub open spec fn fires_spec(&self, event: Event, ctx: Context) -> bool {
        &&& self.active
        &&& event is InsectGlaive
        &&& ctx.last_ctx matches Some(last)
        &&& pair_meets(
            self.cond_red,
            ctx.insect_glaive.attack_timer.whole,
            last.insect_glaive.attack_timer.whole,
        )
        &&& pair_meets(
            self.cond_white,
            ctx.insect_glaive.speed_timer.whole,
            last.insect_glaive.speed_timer.whole,
        )
        &&& pair_meets(
            self.cond_yellow,
            ctx.insect_glaive.defense_timer.whole,
            last.insect_glaive.defense_timer.whole,
        )
    }

    /// Tests an event against the condition.
    pub fn fires(&self, event: &Event, ctx: &Context) -> (r: bool)
        ensures
            r == self.fires_spec(*event, *ctx),
    {
        if !self.active {
            return false;
        }
        match event {
            Event::InsectGlaive => match &ctx.last_ctx {
                Some(last) => compare_cfg_gauge(
                    &self.cond_red,
                    ctx.insect_glaive.attack_timer,
                    last.insect_glaive.attack_timer,
                ) && compare_cfg_gauge(
                    &self.cond_white,
                    ctx.insect_glaive.speed_timer,
                    last.insect_glaive.speed_timer,
                ) && compare_cfg_gauge(
                    &self.cond_yellow,
                    ctx.insect_glaive.defense_timer,
                    last.insect_glaive.defense_timer,
                ),
                None => false,
            },
            _ => false,
        }
    }

    /// The kind of event that the condition is about.
    pub fn event_type(&self) -> (r: EventType)
        ensures
            r == EventType::InsectGlaive,
    {
        EventType::InsectGlaive
    }
}

} // verus!
