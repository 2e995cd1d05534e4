//! The condition on the meters of the charge blade.

use vstd::prelude::*;
use crate::conditions::{
    above, at_most, compare_cfg_ctx, compare_cfg_gauge, other_than, pair_meets, same_text,
};
use crate::configs::{NewOldValueCmp, TriggerCondition, ValueCmp};
use crate::event::{Event, EventType};
use crate::game_context::Context;

verus! {

/// Fires on a change of the charge blade after which each meter, and what
/// it showed before, meet the constraints.
///
/// The constraint on the phials and the one on the power axe time may be
/// given by a name, written as the constraint on the new value. A name
/// stands for a crossing: it constrains the new value and the old one, and
/// so holds on the tick of the crossing and on no tick after it.
#[derive(Debug)]
pub struct ChargeBladeCondition {
    /// Whether the condition was made from a configuration of its kind.
    /// One that was not never fires.
    pub active: bool,
    pub sword_charge_timer: Option<NewOldValueCmp>,
    pub shield_charge_timer: Option<NewOldValueCmp>,
    /// The constraint on the power axe time in all.
    pub power_axe_timer: Option<NewOldValueCmp>,
    pub phials: Option<NewOldValueCmp>,
    pub sword_power: Option<NewOldValueCmp>,
}

/// The name that a pair of constraints is given by, if it is given by one.
pub open spec fn name_of(value: Option<NewOldValueCmp>) -> Option<Seq<char>> {
    match value {
        Some(pair) => match pair.new {
            Some(ValueCmp::Special(name)) => Some(name@),
            _ => None,
        },
        None => None,
    }
}

/// What a name stands for as a constraint on the phials. `full`: all
/// `max_phials` are filled now and were not before. `empty`: none is filled
/// now and some were before. Any other name, and a constraint that is not
/// given by a name, stands for nothing here.
pub open spec fn phials_special(value: Option<NewOldValueCmp>, max_phials: i32) -> Option<
    NewOldValueCmp,
> {
    match name_of(value) {
        Some(name) => if name == "full"@ {
            Some(
                NewOldValueCmp {
                    new: Some(ValueCmp::EqInt(max_phials)),
                    old: Some(other_than(max_phials)),
                },
            )
        } else if name == "empty"@ {
            Some(NewOldValueCmp { new: Some(ValueCmp::EqInt(0)), old: Some(other_than(0)) })
        } else {
            None
        },
        None => None,
    }
}

/// What a name stands for as a constraint on the power axe time.
/// `enabled`: there is time now and there was none before. `disabled`:
/// there is none now and there was some before. Any other name, and a
/// constraint that is not given by a name, stands for nothing here.
pub open spec fn power_axe_timer_special(value: Option<NewOldValueCmp>) -> Option<NewOldValueCmp> {
    match name_of(value) {
        Some(name) => if name == "enabled"@ {
            Some(NewOldValueCmp { new: Some(above(0)), old: Some(at_most(0)) })
        } else if name == "disabled"@ {
            Some(NewOldValueCmp { new: Some(at_most(0)), old: Some(above(0)) })
        } else {
            None
        },
        None => None,
    }
}

/// Whether a new and an old value meet a pair of constraints that may be
/// given by a name. `special` is what the name stands for. A name that
/// stands for nothing asks nothing.
pub open spec fn named_pair_meets(
    value: Option<NewOldValueCmp>,
    special: Option<NewOldValueCmp>,
    new: i32,
    old: i32,
) -> bool {
    if special.is_some() {
        pair_meets(special, new, old)
    } else if name_of(value).is_some() {
        true
    } else {
        pair_meets(value, new, old)
    }
}

/// Whether the phials now and before meet their constraint.
pub open spec fn phials_meet(value: Option<NewOldValueCmp>, max_phials: i32, new: i32, old: i32) -> bool {
    named_pair_meets(value, phials_special(value, max_phials), new, old)
}

/// Whether the power axe time now and before meets its constraint.
pub open spec fn power_axe_meets(value: Option<NewOldValueCmp>, new: i32, old: i32) -> bool {
    named_pair_meets(value, power_axe_timer_special(value), new, old)
}

/// A named constraint holds exactly on the tick of its crossing: `full`
/// when the phials reach their maximum from another count, `empty` when
/// they reach zero from another count, `enabled` when the power axe time
/// rises above zero from zero or below, `disabled` when it falls to zero or
/// below from above.
pub proof fn lemma_named_constraints_hold_on_the_crossing(
    value: Option<NewOldValueCmp>,
    max_phials: i32,
    new: i32,
    old: i32,
)
    ensures
        name_of(value) == Some("full"@) ==> (phials_meet(value, max_phials, new, old) <==> new
            == max_phials && old != max_phials),
        name_of(value) == Some("empty"@) ==> (phials_meet(value, max_phials, new, old) <==> new == 0
            && old != 0),
        name_of(value) == Some("enabled"@) ==> (power_axe_meets(value, new, old) <==> new > 0 && old
            <= 0),
        name_of(value) == Some("disabled"@) ==> (power_axe_meets(value, new, old) <==> new <= 0
            && old > 0),
{
    reveal_strlit("full");
    reveal_strlit("empty");
    reveal_strlit("enabled");
    reveal_strlit("disabled");
    assert("full"@.len() != "empty"@.len());
    assert("enabled"@.len() != "disabled"@.len());
}

/// Over readings that lie at zero or below up to a tick and above zero
/// from that tick on, `enabled` holds on that tick and on no other: not
/// before, and not while the reading stays above zero.
pub proof fn lemma_enabled_holds_on_the_first_tick_above_zero(
    value: Option<NewOldValueCmp>,
    readings: Seq<i32>,
    rise: int,
    tick: int,
)
    requires
        name_of(value) == Some("enabled"@),
        0 < rise < readings.len(),
        forall|i: int| 0 <= i < rise ==> readings[i] <= 0,
        forall|i: int| rise <= i < readings.len() ==> readings[i] > 0,
        0 < tick < readings.len(),
    ensures
        power_axe_meets(value, readings[tick], readings[tick - 1]) <==> tick == rise,
{
    lemma_named_constraints_hold_on_the_crossing(value, 0, readings[tick], readings[tick - 1]);
}

/// The constraint on the phials that a name stands for.
pub fn parse_cfg_phials_special(value: &Option<NewOldValueCmp>, max_phials: i32) -> (r: Option<
    NewOldValueCmp,
>)
    ensures
        r == phials_special(*value, max_phials),
{
    match value {
        None => None,
        Some(pair) => match &pair.new {
            Some(ValueCmp::Special(name)) => {
                if same_text(name.as_str(), "full") {
                    Some(
                        NewOldValueCmp {
                            new: Some(ValueCmp::EqInt(max_phials)),
                            old: Some(
                                ValueCmp::Cmp {
                                    gt: None,
                                    ge: None,
                                    lt: None,
                                    le: None,
                                    ne: Some(max_phials),
                                    is_in: None,
                                    nin: None,
                                },
                            ),
                        },
                    )
                } else if same_text(name.as_str(), "empty") {
                    Some(
                        NewOldValueCmp {
                            new: Some(ValueCmp::EqInt(0)),
                            old: Some(
                                ValueCmp::Cmp {
                                    gt: None,
                                    ge: None,
                                    lt: None,
                                    le: None,
                                    ne: Some(0),
                                    is_in: None,
                                    nin: None,
                                },
                            ),
                        },
                    )
                } else {
                    None
                }
            },
            _ => None,
        },
    }
}

/// The constraint on the power axe time that a name stands for.
pub fn parse_cfg_power_axe_timer_special(value: &Option<NewOldValueCmp>) -> (r: Option<
    NewOldValueCmp,
>)
    ensures
        r == power_axe_timer_special(*value),
{
    match value {
        None => None,
        Some(pair) => match &pair.new {
            Some(ValueCmp::Special(name)) => {
                if same_text(name.as_str(), "enabled") {
                    Some(
                        NewOldValueCmp {
                            new: Some(
                                ValueCmp::Cmp {
                                    gt: Some(0),
                                    ge: None,
                                    lt: None,
                                    le: None,
                                    ne: None,
                                    is_in: None,
                                    nin: None,
                                },
                            ),
                            old: Some(
                                ValueCmp::Cmp {
                                    gt: None,
                                    ge: None,
                                    lt: None,
                                    le: Some(0),
                                    ne: None,
                                    is_in: None,
                                    nin: None,
                                },
                            ),
                        },
                    )
                } else if same_text(name.as_str(), "disabled") {
                    Some(
                        NewOldValueCmp {
                            new: Some(
                                ValueCmp::Cmp {
                                    gt: None,
                                    ge: None,
                                    lt: None,
                                    le: Some(0),
                                    ne: None,
                                    is_in: None,
                                    nin: None,
                                },
                            ),
                            old: Some(
                                ValueCmp::Cmp {
                                    gt: Some(0),
                                    ge: None,
                                    lt: None,
                                    le: None,
                                    ne: None,
                                    is_in: None,
                                    nin: None,
                                },
                            ),
                        },
                    )
                } else {
                    None
                }
            },
            _ => None,
        },
    }
}

/// Whether a pair of constraints is given by a name.
fn is_named(value: &Option<NewOldValueCmp>) -> (r: bool)
    ensures
        r == name_of(*value).is_some(),
{
    match value {
        None => false,
        Some(pair) => match &pair.new {
            Some(ValueCmp::Special(_)) => true,
            _ => false,
        },
    }
}

/// Tests a new and an old value against a pair of constraints that may be
/// given by a name, `special` being what the name stands for.
fn compare_named(
    value: &Option<NewOldValueCmp>,
    special: &Option<NewOldValueCmp>,
    new: i32,
    old: i32,
) -> (r: bool)
    ensures
        r == named_pair_meets(*value, *special, new, old),
{
    if special.is_some() {
        compare_cfg_ctx(special, new, old)
    } else if is_named(value) {
        true
    } else {
        compare_cfg_ctx(value, new, old)
    }
}

impl ChargeBladeCondition {
    /// A configuration of another kind gives a condition that never fires.
    pub fn new_trigger(cond: TriggerCondition) -> (r: Self)
        ensures
            match cond {
                TriggerCondition::ChargeBlade {
                    sword_charge_timer,
                    shield_charge_timer,
                    power_axe_timer,
                    phials,
                    sword_power,
                } => r.active && r.sword_charge_timer == sword_charge_timer && r.shield_charge_timer
                    == shield_charge_timer && r.power_axe_timer == power_axe_timer && r.phials
                    == phials && r.sword_power == sword_power,
                _ => !r.active,
            },
    {
        match cond {
            TriggerCondition::ChargeBlade {
                sword_charge_timer,
                shield_charge_timer,
                power_axe_timer,
                phials,
                sword_power,
            } => ChargeBladeCondition {
                active: true,
                sword_charge_timer,
                shield_charge_timer,
                power_axe_timer,
                phials,
                sword_power,
            },
            _ => ChargeBladeCondition {
                active: false,
                sword_charge_timer: None,
                shield_charge_timer: None,
                power_axe_timer: None,
                phials: None,
                sword_power: None,
            },
        }
    }

    /// The meters of the snapshot are compared with those of the snapshot
    /// before it, a timer with its fraction cut off. The maximum that
    /// `full` speaks of is the one in the snapshot. With no snapshot
    /// before, nothing has changed and the condition does not fire.
    pub open spec fn fires_spec(&self, event: Event, ctx: Context) -> bool {
        &&& self.active
        &&& event is ChargeBlade
        &&& ctx.last_ctx matches Some(last)
        &&& pair_meets(
            self.sword_charge_timer,
            ctx.charge_blade.sword_charge_timer.whole,
            last.charge_blade.sword_charge_timer.whole,
        )
        &&& pair_meets(
            self.shield_charge_timer,
            ctx.charge_blade.shield_charge_timer.whole,
            last.charge_blade.shield_charge_timer.whole,
        )
        &&& phials_meet(
            self.phials,
            ctx.charge_blade.max_phials,
            ctx.charge_blade.phials,
            last.charge_blade.phials,
        )
        &&& pair_meets(
            self.sword_power,
            ctx.charge_blade.sword_power.whole,
            last.charge_blade.sword_power.whole,
        )
        &&& power_axe_meets(
            self.power_axe_timer,
            ctx.charge_blade.power_axe_total,
            last.charge_blade.power_axe_total,
        )
    }

    /// Tests an event against the condition.
    pub fn fires(&self, event: &Event, ctx: &Context) -> (r: bool)
        ensures
            r == self.fires_spec(*event, *ctx),
    {
        if !self.active {
            return false;
        }
        match event {
            Event::ChargeBlade => match &ctx.last_ctx {
                Some(last) => {
                    let phials = parse_cfg_phials_special(&self.phials, ctx.charge_blade.max_phials);
                    let power_axe_timer = parse_cfg_power_axe_timer_special(&self.power_axe_timer);
                    compare_cfg_gauge(
                        &self.sword_charge_timer,
                        ctx.charge_blade.sword_charge_timer,
                        last.charge_blade.sword_charge_timer,
                    ) && compare_cfg_gauge(
                        &self.shield_charge_timer,
                        ctx.charge_blade.shield_charge_timer,
                        last.charge_blade.shield_charge_timer,
                    ) && compare_named(
                        &self.phials,
                        &phials,
                        ctx.charge_blade.phials,
                        last.charge_blade.phials,
                    ) && compare_cfg_gauge(
                        &self.sword_power,
                        ctx.charge_blade.sword_power,
                        last.charge_blade.sword_power,
                    ) && compare_named(
                        &self.power_axe_timer,
                        &power_axe_timer,
                        ctx.charge_blade.power_axe_total,
                        last.charge_blade.power_axe_total,
                    )
                },
                None => false,
            },
            _ => false,
        }
    }

    /// The kind of event that the condition is about.
    pub fn event_type(&self) -> (r: EventType)
        ensures
            r == EventType::ChargeBlade,
    {
        EventType::ChargeBlade
    }
}

} // verus!
