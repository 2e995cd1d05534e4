//! The two ends of the engine: the listener, which turns each new snapshot
//! into events, and the handler, which takes the events one by one and
//! hands them to the rules in use.

use vstd::prelude::*;
use crate::configs;
use crate::configs::ConfigError;
use crate::event::Event;
use crate::game_context::{
    ChargeBlade, ChatCommand, Context, InsectGlaive, WEAPON_CHARGE_BLADE, WEAPON_INSECT_GLAIVE,
    WEAPON_LONG_SWORD,
};
use crate::triggers;
use crate::triggers::manager::{resets, route_of, Step, Ticket, TriggerManager};
use crate::triggers::Trigger;

verus! {

/// Whether an extract of the insect glaive ran out or was gained: the time
/// left on one of them lies above zero now and did not before, or did
/// before and does not now.
pub open spec fn is_insect_glaive_changed_spec(new: InsectGlaive, old: InsectGlaive) -> bool {
    ||| new.attack_timer.positive != old.attack_timer.positive
    ||| new.speed_timer.positive != old.speed_timer.positive
    ||| new.defense_timer.positive != old.defense_timer.positive
}

/// Whether an extract of the insect glaive ran out or was gained.
pub fn is_insect_glaive_changed(new: &InsectGlaive, old: &InsectGlaive) -> (r: bool)
    ensures
        r == is_insect_glaive_changed_spec(*new, *old),
{
    new.attack_timer.positive != old.attack_timer.positive || new.speed_timer.positive
        != old.speed_timer.positive || new.defense_timer.positive != old.defense_timer.positive
}

/// Whether a meter of the charge blade changed: one of the three timers
/// began to run or ran out, or the phials, the mode or the sword energy
/// are not what they were.
pub open spec fn is_charge_blade_changed_spec(new: ChargeBlade, old: ChargeBlade) -> bool {
    ||| new.power_axe_timer.positive != old.power_axe_timer.positive
    ||| new.sword_charge_timer.positive != old.sword_charge_timer.positive
    ||| new.shield_charge_timer.positive != old.shield_charge_timer.positive
    ||| new.phials != old.phials
    ||| new.power_axe_mode != old.power_axe_mode
    ||| new.sword_power != old.sword_power
}

/// Whether a meter of the charge blade changed.
pub fn is_charge_blade_changed(new: &ChargeBlade, old: &ChargeBlade) -> (r: bool)
    ensures
        r == is_charge_blade_changed_spec(*new, *old),
{
    new.power_axe_timer.positive != old.power_axe_timer.positive || new.sword_charge_timer.positive
        != old.sword_charge_timer.positive || new.shield_charge_timer.positive
        != old.shield_charge_timer.positive || new.phials != old.phials || new.power_axe_mode
        != old.power_axe_mode || new.sword_power != old.sword_power
}

/// `events` and, if `wanted`, `event` behind them.
pub open spec fn and_if(events: Seq<Event>, wanted: bool, event: Event) -> Seq<Event> {
    if wanted {
        events.push(event)
    } else {
        events
    }
}

/// The event for what changed in the weapon that is held, where one is
/// due: for the long sword a change of its level, for the insect glaive
/// and the charge blade a change of their meters.
pub open spec fn weapon_change(ctx: Context, last: Context) -> Option<Event> {
    if ctx.weapon_type == WEAPON_LONG_SWORD {
        if ctx.longsword_level != last.longsword_level {
            Some(Event::LongswordLevelChanged { new: ctx.longsword_level, old: last.longsword_level })
        } else {
            None
        }
    } else if ctx.weapon_type == WEAPON_INSECT_GLAIVE {
        if is_insect_glaive_changed_spec(ctx.insect_glaive, last.insect_glaive) {
            Some(Event::InsectGlaive)
        } else {
            None
        }
    } else if ctx.weapon_type == WEAPON_CHARGE_BLADE {
        if is_charge_blade_changed_spec(ctx.charge_blade, last.charge_blade) {
            Some(Event::ChargeBlade)
        } else {
            None
        }
    } else {
        None
    }
}

/// The events for what differs between the snapshot `ctx` and the
/// snapshot `last` before it, in this order: the quest phase, the weapon
/// kind, the machine state, the item that is used, and what belongs to the
/// weapon. An item counts only with an id above 0 and below 3000.
pub open spec fn changes(ctx: Context, last: Context) -> Seq<Event> {
    let quest = and_if(
        Seq::empty(),
        ctx.quest_state != last.quest_state,
        Event::QuestStateChanged { new: ctx.quest_state, old: last.quest_state },
    );
    let weapon = and_if(
        quest,
        ctx.weapon_type != last.weapon_type,
        Event::WeaponTypeChanged { new: ctx.weapon_type, old: last.weapon_type },
    );
    let fsm = and_if(
        weapon,
        ctx.fsm != last.fsm,
        Event::FsmChanged { new: ctx.fsm, old: last.fsm },
    );
    let item = and_if(
        fsm,
        ctx.use_item_id > 0 && ctx.use_item_id < 3000 && ctx.use_item_id != last.use_item_id,
        Event::UseItem { item_id: ctx.use_item_id },
    );
    match weapon_change(ctx, last) {
        Some(event) => item.push(event),
        None => item,
    }
}

/// The events of one tick: none while events are switched off; else the
/// snapshot itself, and then what changed since the snapshot before, if
/// there is one.
pub open spec fn events_of(ctx: Context) -> Seq<Event> {
    if !ctx.plugin_enabled {
        Seq::empty()
    } else {
        seq![Event::UpdateContext { ctx }] + match ctx.last_ctx {
            Some(last) => changes(ctx, *last),
            None => Seq::empty(),
        }
    }
}

/// A tick on which events are made sends the snapshot once, before
/// everything else. A tick while events are switched off sends nothing.
pub proof fn lemma_one_snapshot_a_tick(ctx: Context)
    ensures
        !ctx.plugin_enabled ==> events_of(ctx).len() == 0,
        ctx.plugin_enabled ==> events_of(ctx).len() > 0 && events_of(ctx)[0] == (Event::UpdateContext {
            ctx,
        }),
        forall|i: int| 0 < i < events_of(ctx).len() ==> !(#[trigger] events_of(ctx)[i] is UpdateContext),
{
    if ctx.plugin_enabled {
        match ctx.last_ctx {
            Some(last) => {
                let found = changes(ctx, *last);
                assert forall|i: int| 0 <= i < found.len() implies !(#[trigger] found[i] is UpdateContext) by {}
                assert forall|i: int| 0 < i < events_of(ctx).len() implies !(#[trigger] events_of(
                    ctx,
                )[i] is UpdateContext) by {
                    assert(events_of(ctx)[i] == found[i - 1]);
                }
            },
            None => {},
        }
    }
}

/// The events of one tick.
pub fn detect_events(ctx: &Context) -> (events: Vec<Event>)
    ensures
        events@ == events_of(*ctx),
{
    let mut events: Vec<Event> = Vec::new();
    if !ctx.plugin_enabled {
        return events;
    }
    events.push(Event::UpdateContext { ctx: ctx.clone() });
    match &ctx.last_ctx {
        Some(last_ctx) => {
            if ctx.quest_state != last_ctx.quest_state {
                events.push(
                    Event::QuestStateChanged { new: ctx.quest_state, old: last_ctx.quest_state },
                );
            }
            if ctx.weapon_type != last_ctx.weapon_type {
                events.push(
                    Event::WeaponTypeChanged { new: ctx.weapon_type, old: last_ctx.weapon_type },
                );
            }
            if ctx.fsm != last_ctx.fsm {
                events.push(Event::FsmChanged { new: ctx.fsm, old: last_ctx.fsm });
            }
            if ctx.use_item_id > 0 && ctx.use_item_id < 3000 && ctx.use_item_id
                != last_ctx.use_item_id {
                events.push(Event::UseItem { item_id: ctx.use_item_id });
            }
            if ctx.weapon_type == WEAPON_LONG_SWORD {
                if ctx.longsword_level != last_ctx.longsword_level {
                    events.push(
                        Event::LongswordLevelChanged {
                            new: ctx.longsword_level,
                            old: last_ctx.longsword_level,
                        },
                    );
                }
            } else if ctx.weapon_type == WEAPON_INSECT_GLAIVE {
                if is_insect_glaive_changed(&ctx.insect_glaive, &last_ctx.insect_glaive) {
                    events.push(Event::InsectGlaive);
                }
            } else if ctx.weapon_type == WEAPON_CHARGE_BLADE {
                if is_charge_blade_changed(&ctx.charge_blade, &last_ctx.charge_blade) {
                    events.push(Event::ChargeBlade);
                }
            }
        },
        None => {},
    }
    events
}

/// What the user is to be told after a tick.
#[derive(Debug)]
pub enum Notice {
    /// The rules were read anew.
    Reloaded,
    /// The rules could not be read anew, and those in use stay.
    ReloadFailed { reason: String },
    /// Events are switched on.
    Enabled,
    /// Events are switched off.
    Disabled,
}

/// What one tick of the listener comes to.
#[derive(Debug)]
pub struct Tick {
    pub notice: Option<Notice>,
    /// The events of the tick, in the order in which they are to be sent.
    pub events: Vec<Event>,
}

impl Tick {
    /// The rules could not be had, for the reason given: the tick ends
    /// without an event.
    pub open spec fn failed_with(&self, why: Seq<char>) -> bool {
        &&& self.events@.len() == 0
        &&& self.notice matches Some(Notice::ReloadFailed { reason })
        &&& reason@ == why
    }

    /// The rules of `config` were made: they are the first event of the
    /// tick, and `others` follow.
    pub open spec fn reloaded_with(&self, config: configs::Config, others: Seq<Event>) -> bool {
        &&& self.notice matches Some(Notice::Reloaded)
        &&& self.events@.len() > 0
        &&& self.events@.subrange(1, self.events@.len() as int) == others
        &&& self.events@[0] matches Event::LoadTriggers { trigger_mgr }
        &&& holds_rules_of(trigger_mgr, config)
    }
}

/// Whether `mgr` holds the rules of `config` and nothing else: a trigger
/// for each rule, in the order of the configuration, none of which got an
/// event yet, and the snapshot before anything was read.
pub open spec fn holds_rules_of(mgr: TriggerManager, config: configs::Config) -> bool {
    &&& mgr.wf()
    &&& mgr.shared_ctx == Context::initial()
    &&& mgr.all_triggers@.len() == config.trigger@.len()
    &&& forall|i: int|
        0 <= i < config.trigger@.len() ==> (#[trigger] mgr.all_triggers@[i]).registered_from(
            config.trigger@[i].with_cooldown(config.trigger_cd),
        )
}

/// Makes the trigger of each configured rule, in their order.
pub fn parse_config(cfg: configs::Config) -> (r: Vec<Trigger>)
    ensures
        r@.len() == cfg.trigger@.len(),
        forall|i: int|
            0 <= i < cfg.trigger@.len() ==> (#[trigger] r@[i]).registered_from(cfg.trigger@[i]),
{
    let mut made: Vec<Trigger> = Vec::new();
    let configs::Config { trigger_cd: _, trigger } = cfg;
    for t in it: trigger
        invariant
            it.seq() == cfg.trigger@,
            made@.len() == it.index(),
            forall|i: int|
                0 <= i < it.index() ==> (#[trigger] made@[i]).registered_from(cfg.trigger@[i]),
    {
        made.push(triggers::register_trigger(t));
    }
    made
}

/// Makes the rules that a configuration asks for, `parsed` being what
/// reading it gave. A configuration that could not be read, and one that
/// is refused, gives the error in words.
pub fn load_triggers(parsed: Result<configs::Config, ConfigError>) -> (r: Result<
    TriggerManager,
    String,
>)
    ensures
        match parsed {
            Err(e) => r matches Err(text) && text@ == e.message_spec(),
            Ok(config) => match config.refusal() {
                Some(why) => r matches Err(text) && text@ == "验证配置文件失败："@ + why,
                None => r matches Ok(mgr) && holds_rules_of(mgr, config),
            },
        },
{
    let config = match parsed {
        Ok(config) => config,
        Err(e) => {
            return Err(e.message());
        },
    };
    let checked = match configs::load_config(config) {
        Ok(checked) => checked,
        Err(e) => {
            return Err(e.message());
        },
    };
    let mut trigger_mgr = TriggerManager::new(Context::default());
    let made: Vec<Trigger> = parse_config(checked);
    for trigger in it: made
        invariant
            trigger_mgr.wf(),
            trigger_mgr.shared_ctx == Context::initial(),
            trigger_mgr.all_triggers@ == it.seq().take(it.index() as int),
    {
        trigger_mgr.register_trigger(trigger);
    }
    Ok(trigger_mgr)
}

/// Whether events are switched on after a command.
pub open spec fn enabled_after(command: Option<ChatCommand>, enabled: bool) -> bool {
    match command {
        Some(ChatCommand::Enable) => true,
        Some(ChatCommand::Disable) => false,
        _ => enabled,
    }
}

/// One tick of the listener, after the snapshot was renewed: first the
/// command of the user, if there is one, then the events of the tick.
///
/// The command to read the rules anew is honoured where the caller has
/// read the configuration and hands over what that gave. The new rules are
/// then the first event of the tick. If they cannot be had, the tick ends
/// there, with no event. The commands that switch the events on and off do
/// so before the events of the tick are made.
pub fn event_listener(ctx: &mut Context, parsed: Option<Result<configs::Config, ConfigError>>) -> (tick:
    Tick)
    ensures
        final(ctx).plugin_enabled == enabled_after(old(ctx).chat_command, old(ctx).plugin_enabled),
        *final(ctx) == (Context { plugin_enabled: final(ctx).plugin_enabled, ..*old(ctx) }),
        match old(ctx).chat_command {
            Some(ChatCommand::ReloadConfig) => match parsed {
                Some(Err(e)) => tick.failed_with(e.message_spec()),
                Some(Ok(config)) => match config.refusal() {
                    Some(why) => tick.failed_with("验证配置文件失败："@ + why),
                    None => tick.reloaded_with(config, events_of(*final(ctx))),
                },
                None => tick.notice.is_none() && tick.events@ == events_of(*final(ctx)),
            },
            Some(ChatCommand::Enable) => tick.notice matches Some(Notice::Enabled) && tick.events@
                == events_of(*final(ctx)),
            Some(ChatCommand::Disable) => tick.notice matches Some(Notice::Disabled)
                && tick.events@ == events_of(*final(ctx)),
            None => tick.notice.is_none() && tick.events@ == events_of(*final(ctx)),
        },
{
    let mut notice: Option<Notice> = None;
    let mut loaded: Option<TriggerManager> = None;
    match ctx.chat_command {
        Some(ChatCommand::ReloadConfig) => {
            match parsed {
                Some(parsed) => {
                    match load_triggers(parsed) {
                        Ok(mgr) => {
                            notice = Some(Notice::Reloaded);
                            loaded = Some(mgr);
                        },
                        Err(reason) => {
                            return Tick {
                                notice: Some(Notice::ReloadFailed { reason }),
                                events: Vec::new(),
                            };
                        },
                    }
                },
                None => {},
            }
        },
        Some(ChatCommand::Enable) => {
            notice = Some(Notice::Enabled);
            ctx.plugin_enabled = true;
        },
        Some(ChatCommand::Disable) => {
            notice = Some(Notice::Disabled);
            ctx.plugin_enabled = false;
        },
        None => {},
    }
    let detected: Vec<Event> = detect_events(ctx);
    match loaded {
        Some(trigger_mgr) => {
            let mut events: Vec<Event> = Vec::new();
            events.push(Event::LoadTriggers { trigger_mgr });
            for event in it: detected
                invariant
                    events@.len() == 1 + it.index(),
                    events@[0] == (Event::LoadTriggers { trigger_mgr }),
                    events@.subrange(1, events@.len() as int) == it.seq().take(it.index() as int),
            {
                events.push(event);
            }
            assert(detected@.take(detected@.len() as int) =~= detected@);
            Tick { notice, events }
        },
        None => Tick { notice, events: detected },
    }
}

/// What handling one event came to.
#[derive(Debug)]
pub struct Handled {
    pub step: Step,
    /// The event, where its evaluation stopped for damage: it is handed
    /// back with the ticket of `step` and the damage that was collected.
    pub pending: Option<Event>,
}

/// Whether `handled` says that nothing was handed to any trigger.
pub open spec fn idle(handled: Handled) -> bool {
    handled.step.outcomes@.len() == 0 && handled.step.ticket.is_none() && handled.pending.is_none()
}

/// Whether the rules in use after an event are those that were in use
/// before it: the same rules in the same order, or none as before.
pub open spec fn rules_kept(before: Option<TriggerManager>, after: Option<TriggerManager>) -> bool {
    match before {
        Some(b) => after matches Some(a) && a.same_rules(&b),
        None => after.is_none(),
    }
}

/// Handles one event, `trigger_mgr` being the rules in use.
///
/// New rules take the place of those in use, whole. A new snapshot takes
/// the place of the one that the rules in use hold. Any other event is
/// handed to the triggers that it concerns, which changes their progress
/// and nothing else. Before there are rules, a snapshot and any other
/// event are dropped.
///
/// So the rules in use are at any time those of one configuration: after
/// an event they are the new rules that the event brought, or else the
/// rules that were in use before, never some of each.
pub fn event_handler(trigger_mgr: &mut Option<TriggerManager>, e: Event) -> (handled: Handled)
    requires
        *old(trigger_mgr) matches Some(mgr) ==> mgr.wf(),
        e matches Event::LoadTriggers { trigger_mgr: mgr } ==> mgr.wf(),
    ensures
        *final(trigger_mgr) matches Some(mgr) ==> mgr.wf(),
        !(e is LoadTriggers) ==> rules_kept(*old(trigger_mgr), *final(trigger_mgr)),
        match e {
            Event::LoadTriggers { trigger_mgr: mgr } => *final(trigger_mgr) == Some(mgr) && idle(
                handled,
            ),
            Event::UpdateContext { ctx } => idle(handled) && match *old(trigger_mgr) {
                Some(before) => *final(trigger_mgr) == Some(
                    TriggerManager { shared_ctx: ctx, ..before },
                ),
                None => final(trigger_mgr).is_none(),
            },
            _ => match *old(trigger_mgr) {
                Some(before) => {
                    &&& *final(trigger_mgr) matches Some(after)
                    &&& exists|now: i64| #[trigger]
                        after.handed(
                            &before,
                            e,
                            route_of(before.all_triggers@, e),
                            0,
                            None,
                            resets(e),
                            now,
                            handled.step,
                        )
                    &&& resets(e) ==> after.counts_cleared(
                        route_of(before.all_triggers@, e),
                        0,
                        handled.step,
                    )
                    &&& resets(e) && handled.step.ticket.is_none() ==> after.all_counts_cleared()
                    &&& handled.pending == if handled.step.ticket.is_some() {
                        Some(e)
                    } else {
                        None
                    }
                },
                None => final(trigger_mgr).is_none() && idle(handled),
            },
        },
{
    match e {
        Event::LoadTriggers { trigger_mgr: mgr } => {
            *trigger_mgr = Some(mgr);
            Handled { step: Step { outcomes: Vec::new(), ticket: None }, pending: None }
        },
        Event::UpdateContext { ctx } => {
            match trigger_mgr {
                Some(mgr) => {
                    mgr.update_ctx(ctx);
                },
                None => {},
            }
            Handled { step: Step { outcomes: Vec::new(), ticket: None }, pending: None }
        },
        other => {
            match trigger_mgr {
                Some(mgr) => {
                    let step: Step = mgr.dispatch(&other);
                    let pending: Option<Event> = if step.ticket.is_some() {
                        Some(other)
                    } else {
                        None
                    };
                    Handled { step, pending }
                },
                None => Handled {
                    step: Step { outcomes: Vec::new(), ticket: None },
                    pending: None,
                },
            }
        },
    }
}

/// Takes up the event `e`, whose evaluation stopped for damage, with the
/// ticket that the step before gave and the damage that was collected.
/// Where there are no rules, and where the ticket is stale, nothing happens.
pub fn event_handler_resume(
    trigger_mgr: &mut Option<TriggerManager>,
    e: Event,
    ticket: Ticket,
    damage: i32,
) -> (handled: Handled)
    requires
        *old(trigger_mgr) matches Some(mgr) ==> mgr.wf(),
    ensures
        *final(trigger_mgr) matches Some(mgr) ==> mgr.wf(),
        rules_kept(*old(trigger_mgr), *final(trigger_mgr)),
        match *old(trigger_mgr) {
            Some(before) => if ticket.position < route_of(before.all_triggers@, e).len() {
                &&& *final(trigger_mgr) matches Some(after)
                &&& exists|now: i64| #[trigger]
                    after.handed(
                        &before,
                        e,
                        route_of(before.all_triggers@, e),
                        ticket.position as int,
                        Some((ticket.check, damage)),
                        resets(e),
                        now,
                        handled.step,
                    )
                &&& resets(e) ==> after.counts_cleared(
                    route_of(before.all_triggers@, e),
                    ticket.position as int,
                    handled.step,
                )
                &&& handled.pending == if handled.step.ticket.is_some() {
                    Some(e)
                } else {
                    None
                }
            } else {
                *final(trigger_mgr) == *old(trigger_mgr) && idle(handled)
            },
            None => final(trigger_mgr).is_none() && idle(handled),
        },
{
    match trigger_mgr {
        Some(mgr) => {
            let step: Step = mgr.resume(&e, ticket, damage);
            let pending: Option<Event> = if step.ticket.is_some() {
                Some(e)
            } else {
                None
            };
            Handled { step, pending }
        },
        None => Handled { step: Step { outcomes: Vec::new(), ticket: None }, pending: None },
    }
}

} // verus!
