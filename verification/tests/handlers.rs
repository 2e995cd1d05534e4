use more_auto_shoutouts::configs::{
    Action, ActionMode, CheckCondition, Command, Config, ConfigError, FsmConfig, Trigger,
    TriggerCondition, ValueCmp,
};
use more_auto_shoutouts::event::{Event, EventType};
use more_auto_shoutouts::game_context::{
    ChargeBlade, ChatCommand, Context, Fsm, Gauge, InsectGlaive, WEAPON_CHARGE_BLADE,
    WEAPON_INSECT_GLAIVE, WEAPON_LONG_SWORD,
};
use more_auto_shoutouts::handlers::{
    detect_events, event_handler, event_handler_resume, event_listener, is_charge_blade_changed,
    is_insect_glaive_changed, load_triggers, parse_config, Notice,
};
use more_auto_shoutouts::triggers::{Outcome, TriggerManager};

fn gauge(reading: f32) -> Gauge {
    Gauge { whole: reading as i32, positive: reading > 0.0, raw: reading.to_bits() }
}

fn kinds(events: &[Event]) -> Vec<EventType> {
    events.iter().map(|e| e.event_type()).collect()
}

fn rule(name: &str, trigger_on: TriggerCondition, message: &str) -> Trigger {
    Trigger {
        name: Some(name.to_string()),
        action_mode: Some(ActionMode::SequentialAll),
        action: vec![Action { cmd: Command::SendChatMessage, param: message.to_string() }],
        trigger_on,
        check: Vec::new(),
        cooldown: None,
        enable_cnt: Some(true),
    }
}

fn rules(messages: &[&str]) -> Config {
    Config {
        trigger_cd: 0,
        trigger: messages
            .iter()
            .map(|m| rule(m, TriggerCondition::UseItem { item_id: ValueCmp::EqInt(1) }, m))
            .collect(),
    }
}

fn names(mgr: &TriggerManager) -> Vec<String> {
    mgr.all_triggers.iter().map(|t| t.name.clone().unwrap()).collect()
}

fn sent(outcomes: &[Outcome]) -> Vec<String> {
    let mut all = Vec::new();
    for o in outcomes {
        if let Outcome::Fired { messages, .. } = o {
            all.extend(messages.iter().cloned());
        }
    }
    all
}

#[test]
fn test_is_insect_glaive_changed() {
    let mut old = InsectGlaive::default();
    let mut new = InsectGlaive::default();
    assert_eq!(is_insect_glaive_changed(&new, &old), false);

    new.attack_timer = gauge(1.0);
    assert_eq!(is_insect_glaive_changed(&new, &old), true);

    old.attack_timer = new.attack_timer;
    new.attack_timer = gauge(2.0);
    assert_eq!(is_insect_glaive_changed(&new, &old), false);
}

#[test]
fn insect_glaive_changes_when_an_extract_runs_out() {
    let mut old = InsectGlaive::default();
    let mut new = InsectGlaive::default();
    old.speed_timer = gauge(0.4);
    assert!(is_insect_glaive_changed(&new, &old));
    new.speed_timer = gauge(0.2);
    assert!(!is_insect_glaive_changed(&new, &old));
    new.defense_timer = gauge(90.0);
    assert!(is_insect_glaive_changed(&new, &old));
}

#[test]
fn charge_blade_changes() {
    let old = ChargeBlade::default();
    assert!(!is_charge_blade_changed(&old, &old));
    let mut new = old;
    new.phials = 1;
    assert!(is_charge_blade_changed(&new, &old));
    let mut new = old;
    new.power_axe_mode = 255;
    assert!(is_charge_blade_changed(&new, &old));
    let mut new = old;
    new.sword_power = gauge(0.5);
    assert!(is_charge_blade_changed(&new, &old));
    let mut new = old;
    new.max_phials = 5;
    assert!(!is_charge_blade_changed(&new, &old));
    for timer in 0..3 {
        let mut running = old;
        let mut later = old;
        match timer {
            0 => {
                running.power_axe_timer = gauge(30.0);
                later.power_axe_timer = gauge(29.0);
            }
            1 => {
                running.sword_charge_timer = gauge(30.0);
                later.sword_charge_timer = gauge(29.0);
            }
            _ => {
                running.shield_charge_timer = gauge(30.0);
                later.shield_charge_timer = gauge(29.0);
            }
        }
        assert!(is_charge_blade_changed(&running, &old));
        assert!(is_charge_blade_changed(&old, &running));
        assert!(!is_charge_blade_changed(&later, &running));
    }
}

#[test]
fn a_tick_without_changes_sends_the_snapshot_alone() {
    let mut ctx = Context::default();
    ctx.quest_state = 2;
    ctx.store_last_context();
    let events = detect_events(&ctx);
    assert_eq!(kinds(&events), vec![EventType::UpdateContext]);
    match &events[0] {
        Event::UpdateContext { ctx: sent } => {
            assert_eq!(sent.quest_state, 2);
            assert_eq!(sent.last_ctx.as_ref().unwrap().quest_state, 2);
        }
        other => panic!("{:?}", other),
    }
}

#[test]
fn a_tick_without_an_earlier_snapshot_sends_the_snapshot_alone() {
    let mut ctx = Context::default();
    ctx.quest_state = 2;
    assert_eq!(kinds(&detect_events(&ctx)), vec![EventType::UpdateContext]);
}

#[test]
fn a_tick_sends_what_changed_in_order() {
    let mut ctx = Context::default();
    ctx.weapon_type = 1;
    ctx.store_last_context();
    ctx.quest_state = 2;
    ctx.weapon_type = WEAPON_LONG_SWORD;
    ctx.fsm = Fsm { target: 3, id: 70 };
    ctx.use_item_id = 12;
    ctx.longsword_level = 1;
    let events = detect_events(&ctx);
    assert_eq!(
        kinds(&events),
        vec![
            EventType::UpdateContext,
            EventType::QuestStateChanged,
            EventType::WeaponTypeChanged,
            EventType::FsmChanged,
            EventType::UseItem,
            EventType::LongswordLevelChanged,
        ]
    );
    assert!(matches!(events[1], Event::QuestStateChanged { new: 2, old: 0 }));
    assert!(matches!(events[2], Event::WeaponTypeChanged { new: 3, old: 1 }));
    assert!(matches!(
        events[3],
        Event::FsmChanged { new: Fsm { target: 3, id: 70 }, old: Fsm { target: 0, id: 0 } }
    ));
    assert!(matches!(events[4], Event::UseItem { item_id: 12 }));
    assert!(matches!(events[5], Event::LongswordLevelChanged { new: 1, old: 0 }));
}

#[test]
fn an_item_counts_within_its_range_only() {
    for (id, counts) in [(-1, false), (0, false), (1, true), (2999, true), (3000, false)] {
        let mut ctx = Context::default();
        ctx.use_item_id = 77;
        ctx.store_last_context();
        ctx.use_item_id = id;
        let expected = if counts {
            vec![EventType::UpdateContext, EventType::UseItem]
        } else {
            vec![EventType::UpdateContext]
        };
        assert_eq!(kinds(&detect_events(&ctx)), expected);
    }
}

#[test]
fn the_level_of_the_long_sword_counts_while_it_is_held() {
    let mut ctx = Context::default();
    ctx.store_last_context();
    ctx.longsword_level = 2;
    assert_eq!(kinds(&detect_events(&ctx)), vec![EventType::UpdateContext]);
    ctx.weapon_type = WEAPON_LONG_SWORD;
    ctx.store_last_context();
    ctx.longsword_level = 3;
    assert_eq!(
        kinds(&detect_events(&ctx)),
        vec![EventType::UpdateContext, EventType::LongswordLevelChanged]
    );
}

#[test]
fn the_meters_count_while_their_weapon_is_held() {
    let mut ctx = Context::default();
    ctx.weapon_type = WEAPON_INSECT_GLAIVE;
    ctx.store_last_context();
    ctx.insect_glaive.attack_timer = gauge(60.0);
    ctx.charge_blade.phials = 2;
    assert_eq!(kinds(&detect_events(&ctx)), vec![EventType::UpdateContext, EventType::InsectGlaive]);
    ctx.weapon_type = WEAPON_CHARGE_BLADE;
    ctx.store_last_context();
    ctx.insect_glaive.attack_timer = gauge(0.0);
    ctx.charge_blade.phials = 3;
    assert_eq!(kinds(&detect_events(&ctx)), vec![EventType::UpdateContext, EventType::ChargeBlade]);
    ctx.weapon_type = 1;
    ctx.store_last_context();
    ctx.charge_blade.phials = 4;
    ctx.insect_glaive.attack_timer = gauge(5.0);
    assert_eq!(kinds(&detect_events(&ctx)), vec![EventType::UpdateContext]);
}

#[test]
fn no_events_while_switched_off() {
    let mut ctx = Context::default();
    ctx.store_last_context();
    ctx.quest_state = 2;
    ctx.plugin_enabled = false;
    assert!(detect_events(&ctx).is_empty());
}

#[test]
fn listener_switches_events_off_and_on() {
    let mut ctx = Context::default();
    ctx.store_last_context();
    ctx.quest_state = 2;
    ctx.chat_command = Some(ChatCommand::Disable);
    let tick = event_listener(&mut ctx, None);
    assert!(matches!(tick.notice, Some(Notice::Disabled)));
    assert!(tick.events.is_empty());
    assert!(!ctx.plugin_enabled);
    ctx.chat_command = None;
    let tick = event_listener(&mut ctx, None);
    assert!(tick.notice.is_none());
    assert!(tick.events.is_empty());
    ctx.chat_command = Some(ChatCommand::Enable);
    let tick = event_listener(&mut ctx, None);
    assert!(matches!(tick.notice, Some(Notice::Enabled)));
    assert!(ctx.plugin_enabled);
    assert_eq!(kinds(&tick.events), vec![EventType::UpdateContext, EventType::QuestStateChanged]);
}

#[test]
fn listener_reloads_the_rules_first() {
    let mut ctx = Context::default();
    ctx.store_last_context();
    ctx.quest_state = 2;
    ctx.chat_command = Some(ChatCommand::ReloadConfig);
    let tick = event_listener(&mut ctx, Some(Ok(rules(&["a", "b"]))));
    assert!(matches!(tick.notice, Some(Notice::Reloaded)));
    assert_eq!(
        kinds(&tick.events),
        vec![EventType::LoadTriggers, EventType::UpdateContext, EventType::QuestStateChanged]
    );
    match &tick.events[0] {
        Event::LoadTriggers { trigger_mgr } => assert_eq!(names(trigger_mgr), vec!["a", "b"]),
        other => panic!("{:?}", other),
    }
}

#[test]
fn listener_ends_the_tick_where_the_rules_cannot_be_had() {
    let mut ctx = Context::default();
    ctx.store_last_context();
    ctx.quest_state = 2;
    ctx.chat_command = Some(ChatCommand::ReloadConfig);
    let tick = event_listener(
        &mut ctx,
        Some(Err(ConfigError::Io { message: "no such file".to_string() })),
    );
    match tick.notice {
        Some(Notice::ReloadFailed { reason }) => assert_eq!(reason, "读取配置文件失败：no such file"),
        other => panic!("{:?}", other),
    }
    assert!(tick.events.is_empty());
    let tick = event_listener(&mut ctx, Some(Ok(Config { trigger_cd: -5, trigger: Vec::new() })));
    match tick.notice {
        Some(Notice::ReloadFailed { reason }) => {
            assert_eq!(reason, "验证配置文件失败：event_cd 不能小于0.0")
        }
        other => panic!("{:?}", other),
    }
    assert!(tick.events.is_empty());
}

#[test]
fn listener_reloads_on_the_command_only() {
    let mut ctx = Context::default();
    let tick = event_listener(&mut ctx, Some(Ok(rules(&["a"]))));
    assert!(tick.notice.is_none());
    assert_eq!(kinds(&tick.events), vec![EventType::UpdateContext]);
    ctx.chat_command = Some(ChatCommand::ReloadConfig);
    let tick = event_listener(&mut ctx, None);
    assert!(tick.notice.is_none());
    assert_eq!(kinds(&tick.events), vec![EventType::UpdateContext]);
}

#[test]
fn errors_in_words() {
    assert_eq!(
        ConfigError::Parse { message: "line 3".to_string() }.message(),
        "解析配置文件失败：line 3"
    );
    assert_eq!(ConfigError::Io { message: "denied".to_string() }.message(), "读取配置文件失败：denied");
    assert_eq!(
        ConfigError::Validate { reason: "why".to_string() }.message(),
        "验证配置文件失败：why"
    );
}

#[test]
fn load_triggers_makes_a_trigger_for_each_rule() {
    let mut config = rules(&["a", "b", "c"]);
    config.trigger_cd = 700;
    config.trigger[1].cooldown = Some(5);
    let mgr = load_triggers(Ok(config)).unwrap();
    assert_eq!(names(&mgr), vec!["a", "b", "c"]);
    let cooldowns: Vec<i64> = mgr
        .all_triggers
        .iter()
        .map(|t| t.trigger_fns.builder.cooldown.as_ref().unwrap().cooldown)
        .collect();
    assert_eq!(cooldowns, vec![700, 5, 700]);
    assert_eq!(mgr.shared_ctx.quest_state, 0);
    assert!(mgr.shared_ctx.last_ctx.is_none());
}

#[test]
fn load_triggers_gives_the_error_in_words() {
    let unread: Result<Config, ConfigError> =
        Err(ConfigError::Parse { message: "unexpected `=`".to_string() });
    assert_eq!(load_triggers(unread).unwrap_err(), "解析配置文件失败：unexpected `=`");
    let mut config = rules(&["a"]);
    config.trigger.push(rule(
        "bad",
        TriggerCondition::LongswordLevelChanged { new: None, old: None },
        "x",
    ));
    assert_eq!(
        load_triggers(Ok(config)).unwrap_err(),
        "验证配置文件失败：LongswordLevelChanged 参数不能都为空"
    );
}

#[test]
fn parse_config_keeps_the_order_of_the_rules() {
    let made = parse_config(rules(&["x", "y"]));
    assert_eq!(made.len(), 2);
    assert_eq!(made[0].name.as_deref(), Some("x"));
    assert_eq!(made[1].name.as_deref(), Some("y"));
    assert!(parse_config(rules(&[])).is_empty());
}

#[test]
fn handler_drops_events_before_there_are_rules() {
    let mut state: Option<TriggerManager> = None;
    let handled = event_handler(&mut state, Event::UseItem { item_id: 1 });
    assert!(handled.step.outcomes.is_empty());
    assert!(handled.pending.is_none());
    event_handler(&mut state, Event::UpdateContext { ctx: Context::default() });
    assert!(state.is_none());
}

#[test]
fn handler_takes_new_rules_whole() {
    let mut state: Option<TriggerManager> = None;
    event_handler(
        &mut state,
        Event::LoadTriggers { trigger_mgr: load_triggers(Ok(rules(&["old1", "old2"]))).unwrap() },
    );
    assert_eq!(names(state.as_ref().unwrap()), vec!["old1", "old2"]);
    let handled = event_handler(&mut state, Event::UseItem { item_id: 1 });
    assert_eq!(sent(&handled.step.outcomes), vec!["old1", "old2"]);
    let handled = event_handler(
        &mut state,
        Event::LoadTriggers { trigger_mgr: load_triggers(Ok(rules(&["new"]))).unwrap() },
    );
    assert!(handled.step.outcomes.is_empty());
    assert_eq!(names(state.as_ref().unwrap()), vec!["new"]);
    let handled = event_handler(&mut state, Event::UseItem { item_id: 1 });
    assert_eq!(sent(&handled.step.outcomes), vec!["new"]);
}

#[test]
fn handler_takes_new_snapshots_whole() {
    let mut state = Some(load_triggers(Ok(rules(&["a"]))).unwrap());
    let mut ctx = Context::default();
    ctx.quest_state = 2;
    ctx.weapon_type = 9;
    ctx.store_last_context();
    ctx.quest_state = 3;
    let handled = event_handler(&mut state, Event::UpdateContext { ctx });
    assert!(handled.step.outcomes.is_empty());
    let shared = &state.as_ref().unwrap().shared_ctx;
    assert_eq!(shared.quest_state, 3);
    assert_eq!(shared.weapon_type, 9);
    assert_eq!(shared.last_ctx.as_ref().unwrap().quest_state, 2);
    assert_eq!(names(state.as_ref().unwrap()), vec!["a"]);
}

#[test]
fn handler_resets_the_counts_when_the_player_is_back_at_the_hub() {
    let mut config = rules(&["{{counter}}", "{{counter}}"]);
    config.trigger.push(rule(
        "home",
        TriggerCondition::QuestState { value: ValueCmp::Special("leaved".to_string()) },
        "home {{counter}}",
    ));
    let mut state = Some(load_triggers(Ok(config)).unwrap());
    event_handler(&mut state, Event::UseItem { item_id: 1 });
    let handled = event_handler(&mut state, Event::UseItem { item_id: 1 });
    assert_eq!(sent(&handled.step.outcomes), vec!["2", "2"]);
    let handled = event_handler(&mut state, Event::QuestStateChanged { new: 1, old: 3 });
    assert_eq!(handled.step.outcomes.len(), 3);
    assert_eq!(sent(&handled.step.outcomes), vec!["home 1"]);
    for t in &state.as_ref().unwrap().all_triggers {
        for a in &t.trigger_fns.builder.actions {
            assert_eq!(a.cnt, 0);
        }
    }
    let handled = event_handler(&mut state, Event::UseItem { item_id: 1 });
    assert_eq!(sent(&handled.step.outcomes), vec!["1", "1"]);
}

#[test]
fn handler_hands_the_event_back_while_damage_is_collected() {
    let mut config = rules(&["dealt {{damage}}", "after"]);
    config.trigger[0].check.push(CheckCondition::Damage {
        damage: ValueCmp::Cmp {
            gt: Some(0),
            ge: None,
            lt: None,
            le: None,
            ne: None,
            is_in: None,
            nin: None,
        },
        fsm: FsmConfig { target: ValueCmp::EqInt(0), id: ValueCmp::EqInt(0) },
        timeout: None,
        break_on_fsm_changed: false,
    });
    let mut state = Some(load_triggers(Ok(config)).unwrap());
    let handled = event_handler(&mut state, Event::UseItem { item_id: 1 });
    assert!(handled.step.outcomes.is_empty());
    let ticket = handled.step.ticket.unwrap();
    assert_eq!(ticket.position, 0);
    assert_eq!(ticket.query.timeout, 2000);
    assert!(!ticket.query.until_fsm_changes);
    let event = handled.pending.unwrap();
    assert!(matches!(event, Event::UseItem { item_id: 1 }));
    let handled = event_handler_resume(&mut state, event, ticket, 42);
    assert!(handled.pending.is_none());
    assert!(handled.step.ticket.is_none());
    assert_eq!(sent(&handled.step.outcomes), vec!["dealt 42", "after"]);
    let mut none: Option<TriggerManager> = None;
    let handled = event_handler_resume(&mut none, Event::UseItem { item_id: 1 }, ticket, 42);
    assert!(handled.step.outcomes.is_empty());
}
