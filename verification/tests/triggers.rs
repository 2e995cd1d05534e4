use more_auto_shoutouts::actions::SendChatMessageAction;
use more_auto_shoutouts::conditions::damage::DamageQuery;
use more_auto_shoutouts::conditions::quest_state::QuestStateCondition;
use more_auto_shoutouts::conditions::use_item::UseItemCondition;
use more_auto_shoutouts::configs;
use more_auto_shoutouts::configs::{
    Action, ActionMode, CheckCondition, Command, FsmConfig, TriggerCondition, ValueCmp,
};
use more_auto_shoutouts::event::{Event, EventType};
use more_auto_shoutouts::game_context::{Context, Fsm};
use more_auto_shoutouts::triggers::{
    register_check_condition, register_trigger, register_trigger_condition, CheckCond, Evaluation,
    Gate, Outcome, SingleCoolDown, Step, Suppression, Ticket, Trigger, TriggerBuilder, TriggerCond,
    TriggerManager,
};

fn on_item(id: i32) -> TriggerCond {
    TriggerCond::UseItem(UseItemCondition::new_trigger(TriggerCondition::UseItem {
        item_id: ValueCmp::EqInt(id),
    }))
}

fn on_quest(phase: i32) -> TriggerCond {
    TriggerCond::QuestState(QuestStateCondition::new_trigger(TriggerCondition::QuestState {
        value: ValueCmp::EqInt(phase),
    }))
}

fn builder(cond: TriggerCond, mode: ActionMode, messages: &[&str], counted: bool) -> TriggerBuilder {
    let mut b = TriggerBuilder::new(cond);
    b.set_action_mode(mode);
    for m in messages {
        b.add_action(SendChatMessageAction::new(m, counted));
    }
    b
}

fn fired(evaluation: Evaluation) -> (Vec<usize>, Vec<String>) {
    match evaluation {
        Evaluation::Done(Outcome::Fired { executed, messages }) => (executed, messages),
        other => panic!("did not fire: {:?}", other),
    }
}

fn suppressed(evaluation: Evaluation) -> Suppression {
    match evaluation {
        Evaluation::Done(Outcome::Suppressed(why)) => why,
        other => panic!("was not suppressed: {:?}", other),
    }
}

fn suppressions(step: &Step) -> Vec<Option<Suppression>> {
    step.outcomes
        .iter()
        .map(|o| match o {
            Outcome::Suppressed(why) => Some(*why),
            Outcome::Fired { .. } => None,
        })
        .collect()
}

fn sent(step: &Step) -> Vec<String> {
    let mut all = Vec::new();
    for o in &step.outcomes {
        if let Outcome::Fired { messages, .. } = o {
            all.extend(messages.iter().cloned());
        }
    }
    all
}

fn item(id: i32) -> Event {
    Event::UseItem { item_id: id }
}

fn damage_check(at_least: i32, target: i32, id: i32, until_fsm_changes: bool) -> CheckCond {
    register_check_condition(CheckCondition::Damage {
        damage: ValueCmp::Cmp {
            gt: None,
            ge: Some(at_least),
            lt: None,
            le: None,
            ne: None,
            is_in: None,
            nin: None,
        },
        fsm: FsmConfig { target: ValueCmp::EqInt(target), id: ValueCmp::EqInt(id) },
        timeout: Some(100),
        break_on_fsm_changed: until_fsm_changes,
    })
}

fn quest_check(phase: i32) -> CheckCond {
    register_check_condition(CheckCondition::QuestState { value: ValueCmp::EqInt(phase) })
}

#[test]
fn cooldown_passes_first_then_waits() {
    let mut cd = SingleCoolDown::new(500);
    assert_eq!(cd.record, None);
    assert!(cd.check_set_at(1000));
    assert_eq!(cd.record, Some(1000));
    assert!(!cd.check_set_at(1000));
    assert!(!cd.check_set_at(1499));
    assert_eq!(cd.record, Some(1000));
    assert!(cd.check_set_at(1500));
    assert_eq!(cd.record, Some(1500));
    assert!(!cd.check_set_at(1999));
    assert!(cd.check_set_at(2600));
    assert_eq!(cd.record, Some(2600));
}

#[test]
fn cooldown_of_nothing_always_passes() {
    let mut cd = SingleCoolDown::new(0);
    assert!(cd.check_set_at(7));
    assert!(cd.check_set_at(7));
    assert!(cd.check_set_at(7));
}

#[test]
fn cooldown_below_nothing_always_passes() {
    let mut cd = SingleCoolDown::new(-250);
    assert!(cd.check_set_at(1000));
    assert!(cd.check_set_at(1000));
    assert!(cd.check_set_at(800));
    assert!(!cd.check_set_at(500));
}

#[test]
fn cooldown_that_is_no_length_of_time_counts_as_nothing() {
    let mut cd = SingleCoolDown::new(i64::MIN);
    assert!(cd.check_set_at(100));
    assert!(!cd.check_set_at(50));
    assert!(cd.check_set_at(100));
}

#[test]
fn cooldown_near_the_ends_of_time() {
    let mut cd = SingleCoolDown::new(i64::MAX);
    assert!(cd.check_set_at(i64::MAX));
    assert!(!cd.check_set_at(i64::MAX));
    let mut cd = SingleCoolDown::new(i64::MAX);
    assert!(cd.check_set_at(i64::MIN));
    assert!(!cd.check_set_at(-2));
    assert!(cd.check_set_at(-1));
}

#[test]
fn cooldown_reset_lets_the_next_check_pass() {
    let mut cd = SingleCoolDown::new(500);
    assert!(cd.check_set_at(1000));
    assert!(!cd.check_set_at(1001));
    cd.reset();
    assert_eq!(cd.record, None);
    assert_eq!(cd.cooldown, 500);
    assert!(cd.check_set_at(1001));
}

#[test]
fn cooldown_by_the_clock() {
    let mut cd = SingleCoolDown::new(3_600_000);
    assert!(cd.check_set());
    assert!(cd.record.is_some());
    let started = cd.record;
    assert!(!cd.check_set());
    assert_eq!(cd.record, started);
    let mut none = SingleCoolDown::new(0);
    assert!(none.check_set());
    assert!(none.check_set());
}

#[test]
fn builder_starts_empty() {
    let b = TriggerBuilder::new(on_item(1));
    assert!(b.name.is_none());
    assert!(b.actions.is_empty());
    assert!(b.check_conditions.is_empty());
    assert_eq!(b.action_mode, ActionMode::SequentialAll);
    assert!(b.cooldown.is_none());
    assert_eq!(b.event_type, EventType::UseItem);
    assert_eq!(b.action_idx, 0);
}

#[test]
fn builder_takes_what_it_is_given() {
    let mut b = TriggerBuilder::new(on_quest(2));
    b.set_name("welcome");
    b.set_cooldown(SingleCoolDown::new(250));
    b.set_action_mode(ActionMode::Random);
    b.add_action(SendChatMessageAction::new("a", false));
    b.add_action(SendChatMessageAction::new("b", true));
    b.add_check_condition(quest_check(2));
    assert_eq!(b.name.as_deref(), Some("welcome"));
    assert_eq!(b.cooldown.as_ref().unwrap().cooldown, 250);
    assert_eq!(b.action_mode, ActionMode::Random);
    assert_eq!(b.actions.len(), 2);
    assert_eq!(b.actions[0].msg, "a");
    assert_eq!(b.actions[1].msg, "b");
    assert_eq!(b.check_conditions.len(), 1);
    let t = b.build();
    assert_eq!(t.name.as_deref(), Some("welcome"));
    assert_eq!(t.event_type(), EventType::QuestStateChanged);
    assert_eq!(t.trigger_fns.builder.actions.len(), 2);
}

#[test]
fn all_actions_run_in_order() {
    let mut t = builder(on_item(1), ActionMode::SequentialAll, &["a{{counter}}", "b", "c{{counter}}"], true)
        .build();
    let (executed, messages) = fired(t.on_event(&item(1), &Context::default(), 0));
    assert_eq!(executed, vec![0, 1, 2]);
    assert_eq!(messages, vec!["a1", "b", "c1"]);
    let (executed, messages) = fired(t.on_event(&item(1), &Context::default(), 0));
    assert_eq!(executed, vec![0, 1, 2]);
    assert_eq!(messages, vec!["a2", "b", "c2"]);
}

#[test]
fn sequential_one_takes_turns() {
    let mut t = builder(on_item(1), ActionMode::SequentialOne, &["a", "b", "c"], false).build();
    let mut ran = Vec::new();
    let mut said = Vec::new();
    for _ in 0..5 {
        let (executed, messages) = fired(t.on_event(&item(1), &Context::default(), 0));
        assert_eq!(executed.len(), 1);
        ran.push(executed[0]);
        said.push(messages[0].clone());
    }
    assert_eq!(ran, vec![0, 1, 2, 0, 1]);
    assert_eq!(said, vec!["a", "b", "c", "a", "b"]);
}

#[test]
fn sequential_one_with_one_action() {
    let mut t = builder(on_item(1), ActionMode::SequentialOne, &["only"], false).build();
    for _ in 0..4 {
        let (executed, messages) = fired(t.on_event(&item(1), &Context::default(), 0));
        assert_eq!(executed, vec![0]);
        assert_eq!(messages, vec!["only"]);
    }
}

#[test]
fn sequential_one_cursor_moves_as_described() {
    let mut b = builder(on_item(1), ActionMode::SequentialOne, &["a", "b", "c"], false);
    let mut cursors = vec![b.action_idx];
    for _ in 0..5 {
        b.execute_next_action(&more_auto_shoutouts::actions::ActionContext::new());
        cursors.push(b.action_idx);
    }
    assert_eq!(cursors, vec![0, 1, 2, 3, 1, 2]);
}

#[test]
fn random_runs_one_action_that_is_there() {
    let mut t = builder(on_item(1), ActionMode::Random, &["a", "b", "c"], false).build();
    let mut seen = [0usize; 3];
    for _ in 0..300 {
        let (executed, messages) = fired(t.on_event(&item(1), &Context::default(), 0));
        assert_eq!(executed.len(), 1);
        assert!(executed[0] < 3);
        assert_eq!(messages, vec![["a", "b", "c"][executed[0]]]);
        seen[executed[0]] += 1;
    }
    assert!(seen.iter().all(|n| *n > 0));
}

#[test]
fn a_trigger_without_actions_fires_and_runs_none() {
    for mode in [ActionMode::SequentialAll, ActionMode::SequentialOne, ActionMode::Random] {
        let mut t = builder(on_item(1), mode, &[], false).build();
        let (executed, messages) = fired(t.on_event(&item(1), &Context::default(), 0));
        assert!(executed.is_empty());
        assert!(messages.is_empty());
    }
}

#[test]
fn trigger_condition_gates() {
    let mut t = builder(on_item(1), ActionMode::SequentialAll, &["a"], false).build();
    assert_eq!(suppressed(t.on_event(&item(2), &Context::default(), 0)), Suppression::GateFailed);
    assert_eq!(
        suppressed(t.on_event(&Event::Damage { damage: 1 }, &Context::default(), 0)),
        Suppression::GateFailed
    );
    fired(t.on_event(&item(1), &Context::default(), 0));
}

#[test]
fn check_conditions_gate_on_the_snapshot() {
    let mut b = builder(on_item(1), ActionMode::SequentialAll, &["a"], false);
    b.add_check_condition(quest_check(2));
    b.add_check_condition(register_check_condition(CheckCondition::WeaponType {
        value: ValueCmp::EqInt(9),
    }));
    let mut t = b.build();
    let mut ctx = Context::default();
    assert_eq!(suppressed(t.on_event(&item(1), &ctx, 0)), Suppression::GateFailed);
    ctx.quest_state = 2;
    assert_eq!(suppressed(t.on_event(&item(1), &ctx, 0)), Suppression::GateFailed);
    ctx.weapon_type = 9;
    fired(t.on_event(&item(1), &ctx, 0));
    ctx.quest_state = 3;
    assert_eq!(suppressed(t.on_event(&item(1), &ctx, 0)), Suppression::GateFailed);
}

#[test]
fn trigger_cooldown_gates_after_the_conditions() {
    let mut b = builder(on_item(1), ActionMode::SequentialOne, &["a", "b"], false);
    b.set_cooldown(SingleCoolDown::new(1000));
    let mut t = b.build();
    assert_eq!(fired(t.on_event(&item(1), &Context::default(), 5000)).0, vec![0]);
    assert_eq!(
        suppressed(t.on_event(&item(1), &Context::default(), 5999)),
        Suppression::CoolingDown
    );
    // an event that does not pass the conditions does not start the cooldown anew
    assert_eq!(
        suppressed(t.on_event(&item(2), &Context::default(), 6000)),
        Suppression::GateFailed
    );
    assert_eq!(fired(t.on_event(&item(1), &Context::default(), 6000)).0, vec![1]);
    assert_eq!(t.trigger_fns.builder.cooldown.as_ref().unwrap().record, Some(6000));
}

#[test]
fn coming_back_to_the_hub_starts_a_sequential_trigger_over() {
    let mut b = builder(on_quest(1), ActionMode::SequentialOne, &["a", "b", "c"], false);
    b.set_cooldown(SingleCoolDown::new(60_000));
    let mut t = b.build();
    let back = Event::QuestStateChanged { new: 1, old: 2 };
    assert_eq!(fired(t.on_event(&back, &Context::default(), 0)).0, vec![0]);
    // the cooldown has not passed, but the event makes the trigger start over
    assert_eq!(fired(t.on_event(&back, &Context::default(), 1)).0, vec![0]);
    assert_eq!(fired(t.on_event(&back, &Context::default(), 2)).0, vec![0]);
    // leaving the hub does so too, though the trigger does not fire on it
    let gone = Event::QuestStateChanged { new: 2, old: 1 };
    assert_eq!(suppressed(t.on_event(&gone, &Context::default(), 3)), Suppression::GateFailed);
    assert_eq!(t.trigger_fns.builder.action_idx, 0);
    assert_eq!(t.trigger_fns.builder.cooldown.as_ref().unwrap().record, None);
}

#[test]
fn other_changes_of_the_quest_phase_do_not_start_it_over() {
    let mut b = builder(on_quest(3), ActionMode::SequentialOne, &["a", "b", "c"], false);
    b.set_cooldown(SingleCoolDown::new(10));
    let mut t = b.build();
    let won = Event::QuestStateChanged { new: 3, old: 2 };
    assert_eq!(fired(t.on_event(&won, &Context::default(), 0)).0, vec![0]);
    assert_eq!(suppressed(t.on_event(&won, &Context::default(), 5)), Suppression::CoolingDown);
    assert_eq!(fired(t.on_event(&won, &Context::default(), 10)).0, vec![1]);
}

#[test]
fn the_hub_does_not_start_other_modes_over() {
    let mut b = builder(on_quest(1), ActionMode::SequentialAll, &["a"], false);
    b.set_cooldown(SingleCoolDown::new(60_000));
    let mut t = b.build();
    let back = Event::QuestStateChanged { new: 1, old: 2 };
    fired(t.on_event(&back, &Context::default(), 0));
    assert_eq!(suppressed(t.on_event(&back, &Context::default(), 1)), Suppression::CoolingDown);
}

#[test]
fn check_conditions_report_where_they_wait() {
    let mut b = builder(on_item(1), ActionMode::SequentialAll, &["a"], false);
    b.add_check_condition(quest_check(2));
    b.add_check_condition(damage_check(50, 3, 70, true));
    let mut ctx = Context::default();
    ctx.quest_state = 2;
    ctx.fsm = Fsm { target: 3, id: 70 };
    assert_eq!(
        b.check_conditions(&item(1), &ctx, 0),
        Gate::Wait {
            check: 1,
            query: DamageQuery { fsm: Fsm { target: 3, id: 70 }, timeout: 100, until_fsm_changes: true },
        }
    );
    assert_eq!(b.check_conditions_from(2, &ctx, 0), Gate::Open);
    ctx.fsm = Fsm { target: 3, id: 71 };
    assert_eq!(b.check_conditions(&item(1), &ctx, 0), Gate::Shut(Suppression::GateFailed));
    assert_eq!(b.check_conditions(&item(2), &ctx, 0), Gate::Shut(Suppression::GateFailed));
}

#[test]
fn a_damage_condition_pauses_the_evaluation() {
    let mut b = builder(on_item(1), ActionMode::SequentialAll, &["hit for {{damage}}"], false);
    b.add_check_condition(damage_check(50, 3, 70, false));
    b.add_check_condition(quest_check(2));
    b.set_cooldown(SingleCoolDown::new(1000));
    let mut t = b.build();
    let mut ctx = Context::default();
    ctx.quest_state = 2;
    ctx.fsm = Fsm { target: 3, id: 70 };
    let (check, query) = match t.on_event(&item(1), &ctx, 0) {
        Evaluation::Paused { check, query } => (check, query),
        other => panic!("{:?}", other),
    };
    assert_eq!(check, 0);
    assert_eq!(
        query,
        DamageQuery { fsm: Fsm { target: 3, id: 70 }, timeout: 100, until_fsm_changes: false }
    );
    // the cooldown is not started by a pause
    assert_eq!(t.trigger_fns.builder.cooldown.as_ref().unwrap().record, None);
    assert_eq!(suppressed(t.on_damage(check, 49, &ctx, 100)), Suppression::GateFailed);
    assert_eq!(t.trigger_fns.builder.cooldown.as_ref().unwrap().record, None);
    let (executed, messages) = fired(t.on_damage(check, 50, &ctx, 100));
    assert_eq!(executed, vec![0]);
    assert_eq!(messages, vec!["hit for 50"]);
    assert_eq!(t.trigger_fns.builder.cooldown.as_ref().unwrap().record, Some(100));
    assert_eq!(suppressed(t.on_damage(check, 80, &ctx, 500)), Suppression::CoolingDown);
}

#[test]
fn conditions_behind_a_damage_condition_are_taken_on_resuming() {
    let mut b = builder(on_item(1), ActionMode::SequentialAll, &["{{damage}}"], false);
    b.add_check_condition(damage_check(1, 0, 0, false));
    b.add_check_condition(quest_check(2));
    b.add_check_condition(damage_check(10, 0, 0, true));
    let mut t = b.build();
    let mut ctx = Context::default();
    assert!(matches!(t.on_event(&item(1), &ctx, 0), Evaluation::Paused { check: 0, .. }));
    assert_eq!(suppressed(t.on_damage(0, 5, &ctx, 0)), Suppression::GateFailed);
    ctx.quest_state = 2;
    assert!(matches!(t.on_damage(0, 5, &ctx, 0), Evaluation::Paused { check: 2, .. }));
    assert_eq!(suppressed(t.on_damage(2, 9, &ctx, 0)), Suppression::GateFailed);
    assert_eq!(fired(t.on_damage(2, 12, &ctx, 0)).1, vec!["12"]);
}

#[test]
fn resuming_where_nothing_waits_does_not_fire() {
    let mut b = builder(on_item(1), ActionMode::SequentialAll, &["a"], false);
    b.add_check_condition(quest_check(0));
    let mut t = b.build();
    assert_eq!(suppressed(t.on_damage(0, 5, &Context::default(), 0)), Suppression::GateFailed);
    assert_eq!(suppressed(t.on_damage(1, 5, &Context::default(), 0)), Suppression::GateFailed);
    assert_eq!(
        suppressed(t.on_damage(usize::MAX, 5, &Context::default(), 0)),
        Suppression::GateFailed
    );
}

#[test]
fn reset_clears_the_counts_in_every_mode() {
    for mode in [ActionMode::SequentialAll, ActionMode::SequentialOne, ActionMode::Random] {
        let mut t = builder(on_item(1), mode, &["{{counter}}"], true).build();
        assert_eq!(fired(t.on_event(&item(1), &Context::default(), 0)).1, vec!["1"]);
        assert_eq!(fired(t.on_event(&item(1), &Context::default(), 0)).1, vec!["2"]);
        t.on_event_reset();
        assert!(t.trigger_fns.builder.actions.iter().all(|a| a.cnt == 0));
        assert_eq!(fired(t.on_event(&item(1), &Context::default(), 0)).1, vec!["1"]);
    }
}

fn manager_of(triggers: Vec<Trigger>) -> TriggerManager {
    let mut mgr = TriggerManager::new(Context::default());
    for t in triggers {
        mgr.register_trigger(t);
    }
    mgr
}

#[test]
fn manager_keeps_an_index_by_kind() {
    let mgr = manager_of(vec![
        builder(on_item(1), ActionMode::SequentialAll, &["a"], false).build(),
        builder(on_quest(1), ActionMode::SequentialAll, &["b"], false).build(),
        builder(on_item(2), ActionMode::SequentialAll, &["c"], false).build(),
    ]);
    assert_eq!(mgr.all_triggers.len(), 3);
    assert_eq!(mgr.triggers.len(), 10);
    let filled: Vec<Vec<usize>> = mgr.triggers.iter().filter(|v| !v.is_empty()).cloned().collect();
    assert_eq!(filled, vec![vec![1], vec![0, 2]]);
}

#[test]
fn events_go_to_the_triggers_subscribed_to_their_kind() {
    let mut mgr = manager_of(vec![
        builder(on_item(1), ActionMode::SequentialAll, &["a"], false).build(),
        builder(on_quest(1), ActionMode::SequentialAll, &["b"], false).build(),
        builder(on_item(2), ActionMode::SequentialAll, &["c"], false).build(),
        builder(on_item(1), ActionMode::SequentialAll, &["d"], false).build(),
    ]);
    let step = mgr.dispatch_at(&item(1), 0);
    assert!(step.ticket.is_none());
    assert_eq!(suppressions(&step), vec![None, Some(Suppression::GateFailed), None]);
    assert_eq!(sent(&step), vec!["a", "d"]);
    let step = mgr.dispatch_at(&Event::InsectGlaive, 0);
    assert!(step.outcomes.is_empty());
    assert!(step.ticket.is_none());
}

#[test]
fn a_hit_and_a_change_of_the_quest_phase_go_to_every_trigger() {
    let mut mgr = manager_of(vec![
        builder(on_item(1), ActionMode::SequentialAll, &["a"], false).build(),
        builder(on_quest(2), ActionMode::SequentialAll, &["b"], false).build(),
        builder(on_item(2), ActionMode::SequentialAll, &["c"], false).build(),
    ]);
    let step = mgr.dispatch_at(&Event::Damage { damage: 5 }, 0);
    assert_eq!(step.outcomes.len(), 3);
    assert!(sent(&step).is_empty());
    let step = mgr.dispatch_at(&Event::QuestStateChanged { new: 2, old: 1 }, 0);
    assert_eq!(
        suppressions(&step),
        vec![Some(Suppression::GateFailed), None, Some(Suppression::GateFailed)]
    );
    assert_eq!(sent(&step), vec!["b"]);
}

#[test]
fn coming_back_to_the_hub_resets_every_trigger() {
    let mut mgr = manager_of(vec![
        builder(on_item(1), ActionMode::SequentialAll, &["a{{counter}}", "b{{counter}}"], true).build(),
        builder(on_quest(1), ActionMode::SequentialAll, &["home{{counter}}"], true).build(),
        builder(on_item(1), ActionMode::SequentialOne, &["c{{counter}}"], true).build(),
    ]);
    assert_eq!(sent(&mgr.dispatch_at(&item(1), 0)), vec!["a1", "b1", "c1"]);
    assert_eq!(sent(&mgr.dispatch_at(&item(1), 0)), vec!["a2", "b2", "c2"]);
    assert!(mgr.all_triggers.iter().any(|t| t.trigger_fns.builder.actions.iter().any(|a| a.cnt != 0)));
    let step = mgr.dispatch_at(&Event::QuestStateChanged { new: 1, old: 2 }, 0);
    assert_eq!(sent(&step), vec!["home1"]);
    assert_eq!(step.outcomes.len(), 3);
    for t in &mgr.all_triggers {
        for a in &t.trigger_fns.builder.actions {
            assert_eq!(a.cnt, 0);
        }
    }
    assert_eq!(sent(&mgr.dispatch_at(&item(1), 0)), vec!["a1", "b1", "c1"]);
}

#[test]
fn other_changes_of_the_quest_phase_reset_nothing() {
    let mut mgr = manager_of(vec![
        builder(on_item(1), ActionMode::SequentialAll, &["a{{counter}}"], true).build(),
    ]);
    assert_eq!(sent(&mgr.dispatch_at(&item(1), 0)), vec!["a1"]);
    mgr.dispatch_at(&Event::QuestStateChanged { new: 2, old: 1 }, 0);
    assert_eq!(sent(&mgr.dispatch_at(&item(1), 0)), vec!["a2"]);
    let step = mgr.broadcast(&Event::QuestStateChanged { new: 1, old: 2 }, 0);
    assert_eq!(step.outcomes.len(), 1);
    assert_eq!(sent(&mgr.dispatch_at(&item(1), 0)), vec!["a3"]);
    mgr.broadcast_and_reset(&Event::Damage { damage: 1 }, 0);
    assert_eq!(sent(&mgr.dispatch_at(&item(1), 0)), vec!["a1"]);
}

#[test]
fn manager_pauses_and_resumes_along_the_route() {
    let mut waiting = builder(on_item(1), ActionMode::SequentialAll, &["dealt {{damage}}"], false);
    waiting.add_check_condition(damage_check(10, 0, 0, true));
    let mut mgr = manager_of(vec![
        builder(on_item(1), ActionMode::SequentialAll, &["first"], false).build(),
        builder(on_quest(1), ActionMode::SequentialAll, &["never"], false).build(),
        waiting.build(),
        builder(on_item(1), ActionMode::SequentialAll, &["last"], false).build(),
    ]);
    let event = item(1);
    let step = mgr.dispatch_at(&event, 0);
    assert_eq!(sent(&step), vec!["first"]);
    let ticket = step.ticket.unwrap();
    assert_eq!(
        ticket,
        Ticket {
            position: 1,
            check: 0,
            query: DamageQuery { fsm: Fsm { target: 0, id: 0 }, timeout: 100, until_fsm_changes: true },
        }
    );
    let step = mgr.resume_at(&event, ticket, 25, 10);
    assert!(step.ticket.is_none());
    assert_eq!(sent(&step), vec!["dealt 25", "last"]);

    let step = mgr.dispatch_at(&event, 20);
    let ticket = step.ticket.unwrap();
    let step = mgr.resume_at(&event, ticket, 9, 30);
    assert_eq!(suppressions(&step), vec![Some(Suppression::GateFailed), None]);
    assert_eq!(sent(&step), vec!["last"]);
}

#[test]
fn a_stale_ticket_changes_nothing() {
    let mut mgr = manager_of(vec![
        builder(on_item(1), ActionMode::SequentialAll, &["a{{counter}}"], true).build(),
    ]);
    let ticket = Ticket {
        position: 1,
        check: 0,
        query: DamageQuery { fsm: Fsm { target: 0, id: 0 }, timeout: 1, until_fsm_changes: false },
    };
    let step = mgr.resume_at(&item(1), ticket, 5, 0);
    assert!(step.outcomes.is_empty());
    assert!(step.ticket.is_none());
    let step = mgr.resume_at(&Event::Damage { damage: 1 }, ticket, 5, 0);
    assert!(step.outcomes.is_empty());
    assert_eq!(sent(&mgr.dispatch_at(&item(1), 0)), vec!["a1"]);
}

#[test]
fn conditions_are_tested_against_the_snapshot_of_the_manager() {
    let mut b = builder(on_item(1), ActionMode::SequentialAll, &["a"], false);
    b.add_check_condition(quest_check(2));
    let mut mgr = manager_of(vec![b.build()]);
    assert!(sent(&mgr.dispatch_at(&item(1), 0)).is_empty());
    let mut ctx = Context::default();
    ctx.quest_state = 2;
    mgr.update_ctx(ctx);
    assert_eq!(mgr.shared_ctx.quest_state, 2);
    assert_eq!(sent(&mgr.dispatch_at(&item(1), 0)), vec!["a"]);
}

#[test]
fn dispatch_by_the_clock() {
    let mut b = builder(on_item(1), ActionMode::SequentialAll, &["a"], false);
    b.set_cooldown(SingleCoolDown::new(3_600_000));
    let mut mgr = manager_of(vec![b.build()]);
    assert_eq!(sent(&mgr.dispatch(&item(1))), vec!["a"]);
    assert_eq!(suppressions(&mgr.dispatch(&item(1))), vec![Some(Suppression::CoolingDown)]);
    let ticket = Ticket {
        position: 0,
        check: 0,
        query: DamageQuery { fsm: Fsm { target: 0, id: 0 }, timeout: 1, until_fsm_changes: false },
    };
    assert_eq!(suppressions(&mgr.resume(&item(1), ticket, 1)), vec![Some(Suppression::GateFailed)]);
}

#[test]
fn register_trigger_condition_of_each_kind() {
    let kinds = vec![
        (
            TriggerCondition::LongswordLevelChanged { new: Some(ValueCmp::EqInt(1)), old: None },
            EventType::LongswordLevelChanged,
        ),
        (TriggerCondition::WeaponType { value: ValueCmp::EqInt(1) }, EventType::WeaponTypeChanged),
        (TriggerCondition::QuestState { value: ValueCmp::EqInt(1) }, EventType::QuestStateChanged),
        (TriggerCondition::Fsm { new: None, old: None }, EventType::FsmChanged),
        (TriggerCondition::UseItem { item_id: ValueCmp::EqInt(1) }, EventType::UseItem),
        (
            TriggerCondition::InsectGlaiveLight { red: None, white: None, yellow: None },
            EventType::InsectGlaive,
        ),
        (
            TriggerCondition::ChargeBlade {
                sword_charge_timer: None,
                shield_charge_timer: None,
                power_axe_timer: None,
                phials: None,
                sword_power: None,
            },
            EventType::ChargeBlade,
        ),
    ];
    for (cond, kind) in kinds {
        assert_eq!(register_trigger_condition(cond).event_type(), kind);
    }
}

#[test]
fn register_trigger_follows_the_configuration() {
    let cfg = configs::Trigger {
        name: Some("potion".to_string()),
        action_mode: Some(ActionMode::SequentialOne),
        action: vec![
            Action { cmd: Command::SendChatMessage, param: "first {{counter}}".to_string() },
            Action { cmd: Command::SendChatMessage, param: "second {{counter}}".to_string() },
        ],
        trigger_on: TriggerCondition::UseItem { item_id: ValueCmp::EqInt(1) },
        check: vec![CheckCondition::QuestState { value: ValueCmp::EqInt(2) }],
        cooldown: Some(1500),
        enable_cnt: Some(true),
    };
    let mut t = register_trigger(cfg);
    assert_eq!(t.name.as_deref(), Some("potion"));
    assert_eq!(t.event_type(), EventType::UseItem);
    let b = &t.trigger_fns.builder;
    assert_eq!(b.action_mode, ActionMode::SequentialOne);
    assert_eq!(b.actions.len(), 2);
    assert!(b.actions.iter().all(|a| a.enabled_cnt && a.cnt == 0));
    assert_eq!(b.check_conditions.len(), 1);
    assert_eq!(b.cooldown.as_ref().unwrap().cooldown, 1500);
    assert_eq!(b.cooldown.as_ref().unwrap().record, None);
    let mut ctx = Context::default();
    assert_eq!(suppressed(t.on_event(&item(1), &ctx, 0)), Suppression::GateFailed);
    ctx.quest_state = 2;
    assert_eq!(fired(t.on_event(&item(1), &ctx, 0)).1, vec!["first 1"]);
    assert_eq!(suppressed(t.on_event(&item(1), &ctx, 1499)), Suppression::CoolingDown);
    assert_eq!(fired(t.on_event(&item(1), &ctx, 1500)).1, vec!["second 1"]);
}

#[test]
fn register_trigger_fills_in_what_the_configuration_leaves_out() {
    let cfg = configs::Trigger {
        name: None,
        action_mode: None,
        action: vec![Action { cmd: Command::SendChatMessage, param: "{{counter}}".to_string() }],
        trigger_on: TriggerCondition::QuestState { value: ValueCmp::Special("join".to_string()) },
        check: Vec::new(),
        cooldown: None,
        enable_cnt: None,
    };
    let mut t = register_trigger(cfg);
    assert!(t.name.is_none());
    assert_eq!(t.trigger_fns.builder.action_mode, ActionMode::SequentialAll);
    assert_eq!(t.trigger_fns.builder.cooldown.as_ref().unwrap().cooldown, 0);
    assert!(!t.trigger_fns.builder.actions[0].enabled_cnt);
    let join = Event::QuestStateChanged { new: 2, old: 1 };
    assert_eq!(fired(t.on_event(&join, &Context::default(), 0)).1, vec!["{{counter}}"]);
    assert_eq!(fired(t.on_event(&join, &Context::default(), 0)).1, vec!["{{counter}}"]);
}

#[test]
fn manager_knows_whether_its_index_is_right() {
    let mut mgr = manager_of(vec![
        builder(on_item(1), ActionMode::SequentialAll, &["a"], false).build(),
        builder(on_quest(1), ActionMode::SequentialAll, &["b"], false).build(),
    ]);
    assert!(mgr.is_wf());
    assert!(TriggerManager::new(Context::default()).is_wf());
    mgr.all_triggers[0].event_type = EventType::Damage;
    assert!(!mgr.is_wf());
    mgr.all_triggers[0].event_type = EventType::UseItem;
    assert!(mgr.is_wf());
    mgr.triggers[0].push(0);
    assert!(!mgr.is_wf());
    mgr.triggers[0].clear();
    mgr.triggers.pop();
    assert!(!mgr.is_wf());
}
