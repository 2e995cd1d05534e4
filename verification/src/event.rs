//! The events that the engine is driven by.

use vstd::prelude::*;
use crate::game_context::{Context, Fsm};
use crate::triggers::TriggerManager;

verus! {

/// Something that happened. An event is made once and not changed afterwards.
#[derive(Debug)]
#[allow(inconsistent_fields)]
pub enum Event {
    /// A new set of rules, to take the place of the one in use.
    LoadTriggers { trigger_mgr: TriggerManager },
    /// A new snapshot of the observed state.
    UpdateContext { ctx: Context },
    LongswordLevelChanged { new: i32, old: i32 },
    WeaponTypeChanged { new: i32, old: i32 },
    QuestStateChanged { new: i32, old: i32 },
    FsmChanged { new: Fsm, old: Fsm },
    UseItem { item_id: i32 },
    /// An extract of the insect glaive ran out or was gained.
    InsectGlaive,
    /// A meter of the charge blade changed.
    ChargeBlade,
    /// One hit was dealt.
    Damage { damage: i32 },
}

impl Event {
    /// The kind of the event.
    pub open spec fn event_type_spec(&self) -> EventType {
        match self {
            Event::LoadTriggers { .. } => EventType::LoadTriggers,
            Event::UpdateContext { .. } => EventType::UpdateContext,
            Event::LongswordLevelChanged { .. } => EventType::LongswordLevelChanged,
            Event::WeaponTypeChanged { .. } => EventType::WeaponTypeChanged,
            Event::QuestStateChanged { .. } => EventType::QuestStateChanged,
            Event::FsmChanged { .. } => EventType::FsmChanged,
            Event::InsectGlaive => EventType::InsectGlaive,
            Event::ChargeBlade => EventType::ChargeBlade,
            Event::UseItem { .. } => EventType::UseItem,
            Event::Damage { .. } => EventType::Damage,
        }
    }

    /// The kind of the event.
    #[verifier::when_used_as_spec(event_type_spec)]
    pub fn event_type(&self) -> (r: EventType)
        ensures
            r == self.event_type_spec(),
    {
        match self {
            Event::LoadTriggers { .. } => EventType::LoadTriggers,
            Event::UpdateContext { .. } => EventType::UpdateContext,
            Event::LongswordLevelChanged { .. } => EventType::LongswordLevelChanged,
            Event::WeaponTypeChanged { .. } => EventType::WeaponTypeChanged,
            Event::QuestStateChanged { .. } => EventType::QuestStateChanged,
            Event::FsmChanged { .. } => EventType::FsmChanged,
            Event::InsectGlaive => EventType::InsectGlaive,
            Event::ChargeBlade => EventType::ChargeBlade,
            Event::UseItem { .. } => EventType::UseItem,
            Event::Damage { .. } => EventType::Damage,
        }
    }
}

/// The kind of an event, without what the event carries.
#[derive(Clone, Copy, Debug, PartialEq, Eq, Hash, Structural)]
pub enum EventType {
    LoadTriggers,
    UpdateContext,
    LongswordLevelChanged,
    WeaponTypeChanged,
    QuestStateChanged,
    FsmChanged,
    UseItem,
    InsectGlaive,
    ChargeBlade,
    Damage,
}

} // verus!
