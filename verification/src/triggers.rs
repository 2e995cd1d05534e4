//! The rules at run time: a trigger holds its conditions, its cooldown and
//! its actions, and evaluates the events that it is handed.

use rand::Rng;
use vstd::prelude::*;
use vstd::string::StringExecFns;
use crate::actions::{
    create_action, inserted, next_count, rendered, ActionContext, SendChatMessageAction,
};
use crate::conditions::charge_blade::ChargeBladeCondition;
use crate::conditions::damage::{DamageCondition, DamageQuery, DamageRule, DEFAULT_TIMEOUT};
use crate::conditions::fsm::{FsmChange, FsmCondition};
use crate::conditions::insect_glaive::InsectGlaiveCondition;
use crate::conditions::longsword::LongswordCondition;
use crate::conditions::quest_state::{resolved, QuestStateCondition, QUEST_LEFT};
use crate::conditions::use_item::UseItemCondition;
use crate::conditions::weapon_id::WeaponTypeCondition;
use crate::configs;
use crate::configs::{ActionMode, CheckCondition, NewOldValueCmp, TriggerCondition};
use crate::event::{Event, EventType};
use crate::game_context::Context;
use crate::text::decimal;

pub mod cooldown;
pub mod manager;

pub use crate::triggers::cooldown::SingleCoolDown;
pub use crate::triggers::manager::{Step, Ticket, TriggerManager};

verus! {

/// An index below `len`, as `rand::thread_rng().gen_range(0..len)` picks
/// it. `rand` refuses an empty range, so `len` must not be zero. Which
/// index comes is left open. `rand` gives up where the system has no
/// source of randomness.
#[verifier::external_body]
fn random_index(len: usize) -> (r: usize)
    requires
        len > 0,
    ensures
        r < len,
{
    rand::thread_rng().gen_range(0..len)
}

/// The condition that sets a trigger off, of whichever kind.
#[derive(Debug)]
pub enum TriggerCond {
    Longsword(LongswordCondition),
    WeaponType(WeaponTypeCondition),
    QuestState(QuestStateCondition),
    Fsm(FsmCondition),
    UseItem(UseItemCondition),
    InsectGlaive(InsectGlaiveCondition),
    ChargeBlade(ChargeBladeCondition),
}

impl TriggerCond {
    /// Whether the condition fires on `event`, the snapshot being `ctx`.
    pub open spec fn fires_spec(&self, event: Event, ctx: Context) -> bool {
        match self {
            TriggerCond::Longsword(c) => c.fires_spec(event),
            TriggerCond::WeaponType(c) => c.fires_spec(event),
            TriggerCond::QuestState(c) => c.fires_spec(event),
            TriggerCond::Fsm(c) => c.fires_spec(event),
            TriggerCond::UseItem(c) => c.fires_spec(event),
            TriggerCond::InsectGlaive(c) => c.fires_spec(event, ctx),
            TriggerCond::ChargeBlade(c) => c.fires_spec(event, ctx),
        }
    }

    /// The kind of event that the condition is about.
    pub open spec fn event_type_spec(&self) -> EventType {
        match self {
            TriggerCond::Longsword(_) => EventType::LongswordLevelChanged,
            TriggerCond::WeaponType(_) => EventType::WeaponTypeChanged,
            TriggerCond::QuestState(_) => EventType::QuestStateChanged,
            TriggerCond::Fsm(_) => EventType::FsmChanged,
            TriggerCond::UseItem(_) => EventType::UseItem,
            TriggerCond::InsectGlaive(_) => EventType::InsectGlaive,
            TriggerCond::ChargeBlade(_) => EventType::ChargeBlade,
        }
    }

    /// Tests an event against the condition, the snapshot being `ctx`.
    pub fn check(&self, event: &Event, ctx: &Context) -> (r: bool)
        ensures
            r == self.fires_spec(*event, *ctx),
    {
        match self {
            TriggerCond::Longsword(c) => c.fires(event),
            TriggerCond::WeaponType(c) => c.fires(event),
            TriggerCond::QuestState(c) => c.fires(event),
            TriggerCond::Fsm(c) => c.fires(event),
            TriggerCond::UseItem(c) => c.fires(event),
            TriggerCond::InsectGlaive(c) => c.fires(event, ctx),
            TriggerCond::ChargeBlade(c) => c.fires(event, ctx),
        }
    }

    /// The kind of event that the condition is about.
    pub fn event_type(&self) -> (r: EventType)
        ensures
            r == self.event_type_spec(),
    {
        match self {
            TriggerCond::Longsword(c) => c.event_type(),
            TriggerCond::WeaponType(c) => c.event_type(),
            TriggerCond::QuestState(c) => c.event_type(),
            TriggerCond::Fsm(c) => c.event_type(),
            TriggerCond::UseItem(c) => c.event_type(),
            TriggerCond::InsectGlaive(c) => c.event_type(),
            TriggerCond::ChargeBlade(c) => c.event_type(),
        }
    }

    /// The values that the condition brings for the templates. None of the
    /// conditions brings any of its own.
    pub fn get_action_context(&self) -> (r: ActionContext)
        ensures
            r@ == Seq::<(Seq<char>, Seq<char>)>::empty(),
    {
        ActionContext::new()
    }
}

/// A condition that is checked when a trigger was set off, of whichever kind.
#[derive(Debug)]
pub enum CheckCond {
    Longsword(LongswordCondition),
    WeaponType(WeaponTypeCondition),
    QuestState(QuestStateCondition),
    Fsm(FsmCondition),
    Damage(DamageCondition),
}

impl CheckCond {
    /// Whether the condition holds of the snapshot. A condition on damage
    /// is not decided by the snapshot: it does not hold here.
    pub open spec fn holds_spec(&self, ctx: Context) -> bool {
        match self {
            CheckCond::Longsword(c) => c.holds_spec(ctx),
            CheckCond::WeaponType(c) => c.holds_spec(ctx),
            CheckCond::QuestState(c) => c.holds_spec(ctx),
            CheckCond::Fsm(c) => c.holds_spec(ctx),
            CheckCond::Damage(_) => false,
        }
    }

    /// Tests the snapshot against the condition.
    pub fn check(&self, ctx: &Context) -> (r: bool)
        ensures
            r == self.holds_spec(*ctx),
    {
        match self {
            CheckCond::Longsword(c) => c.holds(ctx),
            CheckCond::WeaponType(c) => c.holds(ctx),
            CheckCond::QuestState(c) => c.holds(ctx),
            CheckCond::Fsm(c) => c.holds(ctx),
            CheckCond::Damage(_) => false,
        }
    }
}

/// Why a trigger that got an event did not fire.
#[derive(Clone, Copy, Debug, PartialEq, Eq, Structural)]
pub enum Suppression {
    /// The trigger condition or a check condition did not hold.
    GateFailed,
    /// All conditions held, but the cooldown had not passed.
    CoolingDown,
}

/// What the conditions of a trigger say.
#[derive(Clone, Copy, Debug, PartialEq, Eq, Structural)]
pub enum Gate {
    /// All of them hold, and the cooldown has passed.
    Open,
    /// The trigger does not fire.
    Shut(Suppression),
    /// The check condition at position `check` is one on damage, and those
    /// before it hold: damage is to be collected as `query` says.
    Wait { check: usize, query: DamageQuery },
}

/// How the evaluation of one event by one trigger ended.
#[derive(Debug)]
pub enum Outcome {
    Suppressed(Suppression),
    /// The trigger fired. `executed` holds the positions of the actions
    /// that ran, in the order in which they ran, and `messages` the message
    /// of each, for the caller to send.
    Fired { executed: Vec<usize>, messages: Vec<String> },
}

/// How far the evaluation of one event by one trigger came.
#[derive(Debug)]
pub enum Evaluation {
    Done(Outcome),
    /// It stopped at the check condition at position `check`, which is one
    /// on damage. The caller collects the damage as `query` says and
    /// resumes the evaluation with the sum.
    Paused { check: usize, query: DamageQuery },
}

/// An evaluation as the contracts speak of it.
pub enum Verdict {
    Suppressed(Suppression),
    Paused { check: usize, query: DamageQuery },
    Fired { executed: Seq<usize>, messages: Seq<Seq<char>> },
}

/// The texts of `messages`.
pub open spec fn texts(messages: Seq<String>) -> Seq<Seq<char>> {
    Seq::new(messages.len(), |i: int| messages[i]@)
}

impl View for Outcome {
    type V = Verdict;

    open spec fn view(&self) -> Verdict {
        match self {
            Outcome::Suppressed(why) => Verdict::Suppressed(*why),
            Outcome::Fired { executed, messages } => Verdict::Fired {
                executed: executed@,
                messages: texts(messages@),
            },
        }
    }
}

impl View for Evaluation {
    type V = Verdict;

    open spec fn view(&self) -> Verdict {
        match self {
            Evaluation::Done(outcome) => outcome@,
            Evaluation::Paused { check, query } => Verdict::Paused { check: *check, query: *query },
        }
    }
}

impl Outcome {
    /// The action that chance picked, where chance picked one: the first
    /// that ran.
    pub open spec fn pick(&self) -> usize {
        match self {
            Outcome::Fired { executed, .. } => if executed@.len() > 0 {
                executed@[0]
            } else {
                0
            },
            _ => 0,
        }
    }
}

impl Evaluation {
    /// The action that chance picked, where chance picked one.
    pub open spec fn pick(&self) -> usize {
        match self {
            Evaluation::Done(outcome) => outcome.pick(),
            _ => 0,
        }
    }
}

/// What of a trigger changes while it runs.
pub struct Progress {
    /// The position of the action that is next in turn.
    pub cursor: usize,
    /// When the trigger last fired, as its cooldown remembers it.
    pub record: Option<i64>,
    /// How often each action ran since it was last reset.
    pub counts: Seq<i32>,
}

/// What the check conditions from position `from` on say of the snapshot.
/// They are taken in order, and the first that does not hold shuts the
/// gate. A condition on damage holds only while the machine is in its
/// state, and then asks for damage to be collected before it is decided.
pub open spec fn checks_from(checks: Seq<CheckCond>, from: int, ctx: Context) -> Gate
    decreases checks.len() - from,
{
    if from < 0 || from >= checks.len() {
        Gate::Open
    } else {
        match checks[from] {
            CheckCond::Damage(d) => match d.query_spec(ctx) {
                Some(query) => Gate::Wait { check: from as usize, query },
                None => Gate::Shut(Suppression::GateFailed),
            },
            other => if other.holds_spec(ctx) {
                checks_from(checks, from + 1, ctx)
            } else {
                Gate::Shut(Suppression::GateFailed)
            },
        }
    }
}

/// The check conditions let a trigger through exactly when every one of
/// them holds of the snapshot. None of them is then one on damage, which
/// the snapshot alone does not decide.
pub proof fn lemma_checks_open_when_all_hold(checks: Seq<CheckCond>, from: int, ctx: Context)
    requires
        0 <= from <= checks.len(),
    ensures
        checks_from(checks, from, ctx) == Gate::Open <==> forall|i: int|
            from <= i < checks.len() ==> (#[trigger] checks[i]).holds_spec(ctx),
    decreases checks.len() - from,
{
    if from < checks.len() {
        lemma_checks_open_when_all_hold(checks, from + 1, ctx);
        if checks_from(checks, from, ctx) == Gate::Open {
            assert forall|i: int| from <= i < checks.len() implies (#[trigger] checks[i]).holds_spec(
                ctx,
            ) by {
                if i > from {
                    assert(checks_from(checks, from + 1, ctx) == Gate::Open);
                }
            }
        } else if checks[from].holds_spec(ctx) {
            assert(checks_from(checks, from + 1, ctx) != Gate::Open);
        }
    }
}

/// A trigger in the making, and the state of a trigger that was made.
#[derive(Debug)]
pub struct TriggerBuilder {
    pub name: Option<String>,
    pub actions: Vec<SendChatMessageAction>,
    pub trigger_condition: TriggerCond,
    pub check_conditions: Vec<CheckCond>,
    pub action_mode: ActionMode,
    pub cooldown: Option<SingleCoolDown>,
    pub event_type: EventType,
    /// The position of the action that is next in turn.
    pub action_idx: usize,
}

impl TriggerBuilder {
    /// What of the trigger changes while it runs.
    pub open spec fn progress(&self) -> Progress {
        Progress {
            cursor: self.action_idx,
            record: match self.cooldown {
                Some(cd) => cd.record,
                None => None,
            },
            counts: Seq::new(self.actions@.len(), |i: int| self.actions@[i].cnt),
        }
    }

    /// Whether `other` is the same rule: all but the progress is the same.
    pub open spec fn same_rule(&self, other: &TriggerBuilder) -> bool {
        &&& other.name == self.name
        &&& other.trigger_condition == self.trigger_condition
        &&& other.check_conditions == self.check_conditions
        &&& other.action_mode == self.action_mode
        &&& other.event_type == self.event_type
        &&& other.cooldown.is_some() == self.cooldown.is_some()
        &&& self.cooldown matches Some(cd) ==> other.cooldown.unwrap().cooldown == cd.cooldown
        &&& other.actions@.len() == self.actions@.len()
        &&& forall|i: int|
            0 <= i < self.actions@.len() ==> (#[trigger] other.actions@[i]).msg
                == self.actions@[i].msg && other.actions@[i].enabled_cnt
                == self.actions@[i].enabled_cnt
    }

    /// Whether `event` makes the trigger start over: the player comes back
    /// to the hub or leaves it, and the actions run one at a time in turn.
    pub open spec fn at_boundary(&self, event: Event) -> bool {
        &&& self.action_mode == ActionMode::SequentialOne
        &&& event matches Event::QuestStateChanged { new, old }
        &&& (new == QUEST_LEFT || old == QUEST_LEFT)
    }

    /// The progress once `event` was looked at: where it makes the trigger
    /// start over, the first action is next in turn and the cooldown
    /// forgets when the trigger last fired.
    pub open spec fn settled(&self, p: Progress, event: Event) -> Progress {
        if self.at_boundary(event) {
            Progress { cursor: 0, record: None, counts: p.counts }
        } else {
            p
        }
    }

    /// Whether the cooldown lets the trigger fire at the time `now`. A
    /// trigger without a cooldown may always fire.
    pub open spec fn ready(&self, p: Progress, now: i64) -> bool {
        match self.cooldown {
            Some(cd) => SingleCoolDown { cooldown: cd.cooldown, record: p.record }.ready(now),
            None => true,
        }
    }

    /// The action that is in turn when the cursor stands at `cursor`: the
    /// one there, or the first where the cursor has run past the last.
    pub open spec fn in_turn(&self, cursor: usize) -> usize {
        if cursor >= self.actions@.len() {
            0
        } else {
            cursor
        }
    }

    /// The cursor after the action in turn ran: one further, or at the
    /// second action where the cursor had run past the last and the first
    /// ran in its place.
    pub open spec fn turned(&self, cursor: usize) -> usize {
        if cursor >= self.actions@.len() {
            1
        } else {
            (cursor + 1) as usize
        }
    }

    /// The positions of the actions that run when the trigger fires: all
    /// in order, or the one in turn, or the one that chance picked. A
    /// trigger without actions runs none.
    pub open spec fn chosen(&self, p: Progress, pick: usize) -> Seq<usize> {
        let n = self.actions@.len();
        match self.action_mode {
            ActionMode::SequentialAll => Seq::new(n, |i: int| i as usize),
            ActionMode::SequentialOne => if n == 0 {
                Seq::empty()
            } else {
                seq![self.in_turn(p.cursor)]
            },
            ActionMode::Random => if n == 0 {
                Seq::empty()
            } else {
                seq![pick]
            },
        }
    }

    /// The message of the action at position `i` when it runs.
    pub open spec fn message_of(
        &self,
        p: Progress,
        i: int,
        entries: Seq<(Seq<char>, Seq<char>)>,
    ) -> Seq<char> {
        rendered(
            self.actions@[i].msg@,
            entries,
            if self.actions@[i].enabled_cnt {
                Some(next_count(p.counts[i]))
            } else {
                None
            },
        )
    }

    /// The count of the action at position `i` after it ran.
    pub open spec fn count_after(&self, p: Progress, i: int) -> i32 {
        if self.actions@[i].enabled_cnt {
            next_count(p.counts[i])
        } else {
            p.counts[i]
        }
    }

    /// The actions run: the progress afterwards, and what ran.
    pub open spec fn acted(
        &self,
        p: Progress,
        entries: Seq<(Seq<char>, Seq<char>)>,
        pick: usize,
    ) -> (Progress, Verdict) {
        let n = self.actions@.len();
        let executed = self.chosen(p, pick);
        (
            Progress {
                cursor: if self.action_mode == ActionMode::SequentialOne && n > 0 {
                    self.turned(p.cursor)
                } else {
                    p.cursor
                },
                record: p.record,
                counts: if self.action_mode == ActionMode::SequentialAll {
                    Seq::new(n, |i: int| self.count_after(p, i))
                } else if executed.len() == 0 {
                    p.counts
                } else {
                    p.counts.update(executed[0] as int, self.count_after(p, executed[0] as int))
                },
            },
            Verdict::Fired {
                executed,
                messages: Seq::new(
                    executed.len(),
                    |k: int| self.message_of(p, executed[k] as int, entries),
                ),
            },
        )
    }

    /// The progress once the cooldown was started anew at the time `now`.
    pub open spec fn stamped(&self, p: Progress, now: i64) -> Progress {
        Progress {
            cursor: p.cursor,
            record: if self.cooldown.is_some() {
                Some(now)
            } else {
                p.record
            },
            counts: p.counts,
        }
    }

    /// The trigger fires at the time `now`: the cooldown starts anew and
    /// the actions run.
    pub open spec fn fired(
        &self,
        p: Progress,
        now: i64,
        entries: Seq<(Seq<char>, Seq<char>)>,
        pick: usize,
    ) -> (Progress, Verdict) {
        self.acted(self.stamped(p, now), entries, pick)
    }

    /// The evaluation from the check condition at position `from` on: the
    /// check conditions, then the cooldown, then the actions.
    pub open spec fn gated(
        &self,
        p: Progress,
        from: int,
        entries: Seq<(Seq<char>, Seq<char>)>,
        ctx: Context,
        now: i64,
        pick: usize,
    ) -> (Progress, Verdict) {
        match checks_from(self.check_conditions@, from, ctx) {
            Gate::Shut(why) => (p, Verdict::Suppressed(why)),
            Gate::Wait { check, query } => (p, Verdict::Paused { check, query }),
            Gate::Open => if self.ready(p, now) {
                self.fired(p, now, entries, pick)
            } else {
                (p, Verdict::Suppressed(Suppression::CoolingDown))
            },
        }
    }

    /// The evaluation of `event` from its start.
    pub open spec fn started(&self, p: Progress, event: Event, ctx: Context, now: i64, pick: usize) -> (
        Progress,
        Verdict,
    ) {
        let settled = self.settled(p, event);
        if self.trigger_condition.fires_spec(event, ctx) {
            self.gated(settled, 0, Seq::empty(), ctx, now, pick)
        } else {
            (settled, Verdict::Suppressed(Suppression::GateFailed))
        }
    }

    /// The evaluation from where it stopped for damage, `damage` being the
    /// sum that was collected: its numeral is there for the templates under
    /// the key `damage`. Where no condition on damage stands at `check`,
    /// the trigger does not fire.
    pub open spec fn resumed(
        &self,
        p: Progress,
        check: usize,
        damage: i32,
        ctx: Context,
        now: i64,
        pick: usize,
    ) -> (Progress, Verdict) {
        if check < self.check_conditions@.len() {
            match self.check_conditions@[check as int] {
                CheckCond::Damage(d) => if d.accepts(damage) {
                    self.gated(
                        p,
                        check + 1,
                        inserted(Seq::empty(), "damage"@, decimal(damage as int)),
                        ctx,
                        now,
                        pick,
                    )
                } else {
                    (p, Verdict::Suppressed(Suppression::GateFailed))
                },
                _ => (p, Verdict::Suppressed(Suppression::GateFailed)),
            }
        } else {
            (p, Verdict::Suppressed(Suppression::GateFailed))
        }
    }

    /// Where chance picks the action, it picks one that is there.
    pub open spec fn picks_fairly(&self, evaluation: Evaluation) -> bool {
        self.action_mode == ActionMode::Random && self.actions@.len() > 0 ==> evaluation.pick()
            < self.actions@.len()
    }

    /// The progress after a reset: every count is zero.
    pub open spec fn cleared(p: Progress) -> Progress {
        Progress { cursor: p.cursor, record: p.record, counts: Seq::new(p.counts.len(), |i: int| 0i32) }
    }
}


impl TriggerBuilder {
    /// A trigger with the condition that sets it off, and nothing else yet:
    /// no name, no action, no check condition, no cooldown. Its actions
    /// will all run when it fires.
    pub fn new(trigger_condition: TriggerCond) -> (r: TriggerBuilder)
        ensures
            r.name.is_none(),
            r.actions@.len() == 0,
            r.trigger_condition == trigger_condition,
            r.check_conditions@.len() == 0,
            r.action_mode == ActionMode::SequentialAll,
            r.cooldown.is_none(),
            r.event_type == trigger_condition.event_type_spec(),
            r.action_idx == 0,
    {
        let event_type = trigger_condition.event_type();
        TriggerBuilder {
            name: None,
            actions: Vec::new(),
            trigger_condition,
            check_conditions: Vec::new(),
            action_mode: ActionMode::SequentialAll,
            cooldown: None,
            event_type,
            action_idx: 0,
        }
    }

    /// Gives the trigger a name.
    pub fn set_name(&mut self, name: &str)
        ensures
            final(self).name matches Some(n) && n@ == name@,
            final(self).actions == old(self).actions,
            final(self).trigger_condition == old(self).trigger_condition,
            final(self).check_conditions == old(self).check_conditions,
            final(self).action_mode == old(self).action_mode,
            final(self).cooldown == old(self).cooldown,
            final(self).event_type == old(self).event_type,
            final(self).action_idx == old(self).action_idx,
    {
        self.name = Some(String::from_str(name));
    }

    /// Gives the trigger a cooldown.
    pub fn set_cooldown(&mut self, cooldown: SingleCoolDown)
        ensures
            final(self).cooldown == Some(cooldown),
            final(self).name == old(self).name,
            final(self).actions == old(self).actions,
            final(self).trigger_condition == old(self).trigger_condition,
            final(self).check_conditions == old(self).check_conditions,
            final(self).action_mode == old(self).action_mode,
            final(self).event_type == old(self).event_type,
            final(self).action_idx == old(self).action_idx,
    {
        self.cooldown = Some(cooldown);
    }

    /// Says how the actions are chosen when the trigger fires.
    pub fn set_action_mode(&mut self, action_mode: ActionMode)
        ensures
            final(self).action_mode == action_mode,
            final(self).name == old(self).name,
            final(self).actions == old(self).actions,
            final(self).trigger_condition == old(self).trigger_condition,
            final(self).check_conditions == old(self).check_conditions,
            final(self).cooldown == old(self).cooldown,
            final(self).event_type == old(self).event_type,
            final(self).action_idx == old(self).action_idx,
    {
        self.action_mode = action_mode;
    }

    /// Adds an action behind those that are there.
    pub fn add_action(&mut self, action: SendChatMessageAction)
        ensures
            final(self).actions@ == old(self).actions@.push(action),
            final(self).name == old(self).name,
            final(self).trigger_condition == old(self).trigger_condition,
            final(self).check_conditions == old(self).check_conditions,
            final(self).action_mode == old(self).action_mode,
            final(self).cooldown == old(self).cooldown,
            final(self).event_type == old(self).event_type,
            final(self).action_idx == old(self).action_idx,
    {
        self.actions.push(action);
    }

    /// Adds a check condition behind those that are there.
    pub fn add_check_condition(&mut self, cond: CheckCond)
        ensures
            final(self).check_conditions@ == old(self).check_conditions@.push(cond),
            final(self).name == old(self).name,
            final(self).actions == old(self).actions,
            final(self).trigger_condition == old(self).trigger_condition,
            final(self).action_mode == old(self).action_mode,
            final(self).cooldown == old(self).cooldown,
            final(self).event_type == old(self).event_type,
            final(self).action_idx == old(self).action_idx,
    {
        self.check_conditions.push(cond);
    }

    /// The trigger that was put together.
    pub fn build(self) -> (r: Trigger)
        ensures
            r.trigger_fns.builder == self,
            r.name == self.name,
            r.event_type == self.event_type,
    {
        let name: Option<String> = match &self.name {
            Some(n) => Some(n.clone()),
            None => None,
        };
        let event_type = self.event_type;
        let trigger_fns = TriggerFns::new(self);
        Trigger { name, trigger_fns, event_type }
    }

    /// Takes the check conditions from position `from` on, and then the
    /// cooldown at the time `now`. Where all of it passes, the cooldown
    /// starts anew.
    pub fn check_conditions_from(&mut self, from: usize, ctx: &Context, now: i64) -> (gate: Gate)
        ensures
            old(self).same_rule(final(self)),
            gate == match checks_from(old(self).check_conditions@, from as int, *ctx) {
                Gate::Open => if old(self).ready(old(self).progress(), now) {
                    Gate::Open
                } else {
                    Gate::Shut(Suppression::CoolingDown)
                },
                other => other,
            },
            final(self).progress() == if gate == Gate::Open {
                old(self).stamped(old(self).progress(), now)
            } else {
                old(self).progress()
            },
    {
        let mut i: usize = from;
        while i < self.check_conditions.len()
            invariant
                *self == *old(self),
                from <= i,
                checks_from(self.check_conditions@, i as int, *ctx) == checks_from(
                    self.check_conditions@,
                    from as int,
                    *ctx,
                ),
            decreases self.check_conditions.len() - i,
        {
            match &self.check_conditions[i] {
                CheckCond::Damage(d) => {
                    return match d.query(ctx) {
                        Some(query) => Gate::Wait { check: i, query },
                        None => Gate::Shut(Suppression::GateFailed),
                    };
                },
                other => {
                    if !other.check(ctx) {
                        return Gate::Shut(Suppression::GateFailed);
                    }
                },
            }
            i += 1;
        }
        let passed: bool = match &mut self.cooldown {
            Some(cd) => cd.check_set_at(now),
            None => true,
        };
        if passed {
            Gate::Open
        } else {
            Gate::Shut(Suppression::CoolingDown)
        }
    }

    /// Looks at `event`, then takes the trigger condition, the check
    /// conditions and the cooldown.
    pub fn check_conditions(&mut self, event: &Event, ctx: &Context, now: i64) -> (gate: Gate)
        ensures
            old(self).same_rule(final(self)),
            ({
                let settled = old(self).settled(old(self).progress(), *event);
                if old(self).trigger_condition.fires_spec(*event, *ctx) {
                    &&& gate == match checks_from(old(self).check_conditions@, 0, *ctx) {
                        Gate::Open => if old(self).ready(settled, now) {
                            Gate::Open
                        } else {
                            Gate::Shut(Suppression::CoolingDown)
                        },
                        other => other,
                    }
                    &&& final(self).progress() == if gate == Gate::Open {
                        old(self).stamped(settled, now)
                    } else {
                        settled
                    }
                } else {
                    &&& gate == Gate::Shut(Suppression::GateFailed)
                    &&& final(self).progress() == settled
                }
            }),
    {
        let boundary: bool = match self.action_mode {
            ActionMode::SequentialOne => match event {
                Event::QuestStateChanged { new, old } => *new == QUEST_LEFT || *old == QUEST_LEFT,
                _ => false,
            },
            _ => false,
        };
        if boundary {
            self.action_idx = 0;
            match &mut self.cooldown {
                Some(cd) => {
                    cd.reset();
                },
                None => {},
            }
        }
        if !self.trigger_condition.check(event, ctx) {
            return Gate::Shut(Suppression::GateFailed);
        }
        self.check_conditions_from(0, ctx, now)
    }

    /// Runs the action at position `i`.
    fn run_action(&mut self, i: usize, action_ctx: &ActionContext) -> (msg: String)
        requires
            i < old(self).actions@.len(),
        ensures
            old(self).same_rule(final(self)),
            msg@ == old(self).message_of(old(self).progress(), i as int, action_ctx@),
            final(self).progress() == (Progress {
                cursor: old(self).progress().cursor,
                record: old(self).progress().record,
                counts: old(self).progress().counts.update(
                    i as int,
                    old(self).count_after(old(self).progress(), i as int),
                ),
            }),
    {
        let msg: String = self.actions[i].execute(action_ctx);
        assert(self.progress().counts =~= old(self).progress().counts.update(
            i as int,
            old(self).count_after(old(self).progress(), i as int),
        ));
        msg
    }

    /// Runs every action, in order.
    pub fn execute_all(&mut self, action_ctx: &ActionContext) -> (outcome: Outcome)
        requires
            old(self).action_mode == ActionMode::SequentialAll,
        ensures
            old(self).same_rule(final(self)),
            (final(self).progress(), outcome@) == old(self).acted(
                old(self).progress(),
                action_ctx@,
                outcome.pick(),
            ),
    {
        let n: usize = self.actions.len();
        let mut executed: Vec<usize> = Vec::new();
        let mut messages: Vec<String> = Vec::new();
        let ghost p = self.progress();
        let mut i: usize = 0;
        while i < n
            invariant
                i <= n,
                n == self.actions@.len(),
                p == old(self).progress(),
                old(self).same_rule(self),
                self.progress().cursor == p.cursor,
                self.progress().record == p.record,
                forall|j: int| 0 <= j < i ==> self.progress().counts[j] == old(self).count_after(p, j),
                forall|j: int| i <= j < n ==> self.progress().counts[j] == p.counts[j],
                executed@.len() == i,
                forall|j: int| 0 <= j < i ==> executed@[j] == j,
                messages@.len() == i,
                forall|j: int|
                    0 <= j < i ==> (#[trigger] messages@[j])@ == old(self).message_of(
                        p,
                        j,
                        action_ctx@,
                    ),
            decreases n - i,
        {
            let msg: String = self.run_action(i, action_ctx);
            executed.push(i);
            messages.push(msg);
            i += 1;
        }
        let outcome = Outcome::Fired { executed, messages };
        proof {
            let expected = old(self).acted(p, action_ctx@, outcome.pick());
            assert(self.progress().counts =~= expected.0.counts);
            assert(outcome@ matches Verdict::Fired { executed, messages } && executed
                =~= old(self).chosen(p, outcome.pick()) && messages =~= expected.1->Fired_messages);
        }
        outcome
    }

    /// Runs the action that is in turn, and moves the turn on. A trigger
    /// without actions runs none.
    pub fn execute_next_action(&mut self, action_ctx: &ActionContext) -> (outcome: Outcome)
        requires
            old(self).action_mode == ActionMode::SequentialOne,
        ensures
            old(self).same_rule(final(self)),
            (final(self).progress(), outcome@) == old(self).acted(
                old(self).progress(),
                action_ctx@,
                outcome.pick(),
            ),
    {
        let n: usize = self.actions.len();
        let mut executed: Vec<usize> = Vec::new();
        let mut messages: Vec<String> = Vec::new();
        if n > 0 {
            let mut action_idx: usize = self.action_idx;
            if action_idx >= n {
                self.action_idx = 1;
                action_idx = 0;
            } else {
                self.action_idx = action_idx + 1;
            }
            let msg: String = self.run_action(action_idx, action_ctx);
            executed.push(action_idx);
            messages.push(msg);
        }
        let outcome = Outcome::Fired { executed, messages };
        proof {
            let expected = old(self).acted(old(self).progress(), action_ctx@, outcome.pick());
            assert(outcome@ matches Verdict::Fired { executed, messages } && executed
                =~= old(self).chosen(old(self).progress(), outcome.pick()) && messages
                =~= expected.1->Fired_messages);
        }
        outcome
    }

    /// Runs one action, picked at random. A trigger without actions runs none.
    pub fn execute_random_one(&mut self, action_ctx: &ActionContext) -> (outcome: Outcome)
        requires
            old(self).action_mode == ActionMode::Random,
        ensures
            old(self).same_rule(final(self)),
            (final(self).progress(), outcome@) == old(self).acted(
                old(self).progress(),
                action_ctx@,
                outcome.pick(),
            ),
            outcome.pick() < old(self).actions@.len() || old(self).actions@.len() == 0,
    {
        let n: usize = self.actions.len();
        let mut executed: Vec<usize> = Vec::new();
        let mut messages: Vec<String> = Vec::new();
        if n > 0 {
            let idx: usize = random_index(n);
            let msg: String = self.run_action(idx, action_ctx);
            executed.push(idx);
            messages.push(msg);
        }
        let outcome = Outcome::Fired { executed, messages };
        proof {
            let expected = old(self).acted(old(self).progress(), action_ctx@, outcome.pick());
            assert(outcome@ matches Verdict::Fired { executed, messages } && executed
                =~= old(self).chosen(old(self).progress(), outcome.pick()) && messages
                =~= expected.1->Fired_messages);
        }
        outcome
    }

    /// Runs the actions as the mode says.
    pub fn execute_actions(&mut self, action_ctx: &ActionContext) -> (outcome: Outcome)
        ensures
            old(self).same_rule(final(self)),
            (final(self).progress(), outcome@) == old(self).acted(
                old(self).progress(),
                action_ctx@,
                outcome.pick(),
            ),
            old(self).action_mode == ActionMode::Random ==> outcome.pick() < old(
                self,
            ).actions@.len() || old(self).actions@.len() == 0,
    {
        match self.action_mode {
            ActionMode::SequentialAll => self.execute_all(action_ctx),
            ActionMode::SequentialOne => self.execute_next_action(action_ctx),
            ActionMode::Random => self.execute_random_one(action_ctx),
        }
    }
}

/// A trigger as it runs.
#[derive(Debug)]
pub struct TriggerFns {
    pub builder: TriggerBuilder,
}

/// One rule at run time.
#[derive(Debug)]
pub struct Trigger {
    pub name: Option<String>,
    pub trigger_fns: TriggerFns,
    pub event_type: EventType,
}

impl TriggerFns {
    /// The trigger that runs what `builder` holds.
    pub fn new(builder: TriggerBuilder) -> (r: Self)
        ensures
            r.builder == builder,
    {
        Self { builder }
    }
}

/// Two triggers that are the same rule act alike from the same progress.
pub proof fn lemma_same_rule_acts_alike(
    a: TriggerBuilder,
    b: TriggerBuilder,
    p: Progress,
    entries: Seq<(Seq<char>, Seq<char>)>,
    pick: usize,
)
    requires
        a.same_rule(&b),
        a.action_mode == ActionMode::Random && a.actions@.len() > 0 ==> pick < a.actions@.len(),
    ensures
        a.acted(p, entries, pick) == b.acted(p, entries, pick),
{
    let x = a.acted(p, entries, pick);
    let y = b.acted(p, entries, pick);
    assert forall|i: int| 0 <= i < a.actions@.len() implies a.count_after(p, i) == b.count_after(
        p,
        i,
    ) && a.message_of(p, i, entries) == b.message_of(p, i, entries) by {
        assert(b.actions@[i].msg == a.actions@[i].msg);
    }
    assert(x.0.counts =~= y.0.counts);
    assert(x.1->Fired_messages =~= y.1->Fired_messages);
}

impl TriggerFns {
    /// Evaluates `event` at the time `now`, the snapshot being `ctx`:
    /// looks whether the event makes the trigger start over, takes the
    /// trigger condition, the check conditions in order and the cooldown,
    /// and runs the actions if all of it passed. It stops at the first
    /// check condition on damage that is reached.
    pub fn execute(&mut self, event: &Event, ctx: &Context, now: i64) -> (evaluation: Evaluation)
        ensures
            old(self).builder.same_rule(&final(self).builder),
            (final(self).builder.progress(), evaluation@) == old(self).builder.started(
                old(self).builder.progress(),
                *event,
                *ctx,
                now,
                evaluation.pick(),
            ),
            old(self).builder.picks_fairly(evaluation),
    {
        match self.builder.check_conditions(event, ctx, now) {
            Gate::Shut(why) => Evaluation::Done(Outcome::Suppressed(why)),
            Gate::Wait { check, query } => Evaluation::Paused { check, query },
            Gate::Open => {
                let action_ctx = self.builder.trigger_condition.get_action_context();
                let ghost mid = self.builder;
                let outcome = self.builder.execute_actions(&action_ctx);
                proof {
                    lemma_same_rule_acts_alike(
                        old(self).builder,
                        mid,
                        mid.progress(),
                        action_ctx@,
                        outcome.pick(),
                    );
                }
                Evaluation::Done(outcome)
            },
        }
    }

    /// Takes the evaluation up where it stopped for damage, `damage` being
    /// the sum that was collected.
    pub fn resume(&mut self, check: usize, damage: i32, ctx: &Context, now: i64) -> (evaluation:
        Evaluation)
        ensures
            old(self).builder.same_rule(&final(self).builder),
            (final(self).builder.progress(), evaluation@) == old(self).builder.resumed(
                old(self).builder.progress(),
                check,
                damage,
                *ctx,
                now,
                evaluation.pick(),
            ),
            old(self).builder.picks_fairly(evaluation),
    {
        if check >= self.builder.check_conditions.len() {
            return Evaluation::Done(Outcome::Suppressed(Suppression::GateFailed));
        }
        let mut action_ctx = self.builder.trigger_condition.get_action_context();
        let accepted: bool = match &self.builder.check_conditions[check] {
            CheckCond::Damage(d) => d.check(damage, &mut action_ctx),
            _ => false,
        };
        if !accepted {
            return Evaluation::Done(Outcome::Suppressed(Suppression::GateFailed));
        }
        match self.builder.check_conditions_from(check + 1, ctx, now) {
            Gate::Shut(why) => Evaluation::Done(Outcome::Suppressed(why)),
            Gate::Wait { check, query } => Evaluation::Paused { check, query },
            Gate::Open => {
                let ghost mid = self.builder;
                let outcome = self.builder.execute_actions(&action_ctx);
                proof {
                    lemma_same_rule_acts_alike(
                        old(self).builder,
                        mid,
                        mid.progress(),
                        action_ctx@,
                        outcome.pick(),
                    );
                }
                Evaluation::Done(outcome)
            },
        }
    }

    /// Sets the count of every action back to zero.
    pub fn reset(&mut self)
        ensures
            old(self).builder.same_rule(&final(self).builder),
            final(self).builder.progress() == TriggerBuilder::cleared(old(self).builder.progress()),
    {
        let n: usize = self.builder.actions.len();
        let mut i: usize = 0;
        while i < n
            invariant
                i <= n,
                n == self.builder.actions@.len(),
                old(self).builder.same_rule(&self.builder),
                self.builder.action_idx == old(self).builder.action_idx,
                self.builder.cooldown == old(self).builder.cooldown,
                forall|j: int| 0 <= j < i ==> (#[trigger] self.builder.actions@[j]).cnt == 0,
            decreases n - i,
        {
            self.builder.actions[i].reset();
            i += 1;
        }
        assert(self.builder.progress().counts =~= TriggerBuilder::cleared(
            old(self).builder.progress(),
        ).counts);
    }
}

impl Trigger {
    /// What of the trigger changes while it runs.
    pub open spec fn progress(&self) -> Progress {
        self.trigger_fns.builder.progress()
    }

    /// Whether `other` is the same rule: all but the progress is the same.
    pub open spec fn same_rule(&self, other: &Trigger) -> bool {
        &&& other.name == self.name
        &&& other.event_type == self.event_type
        &&& self.trigger_fns.builder.same_rule(&other.trigger_fns.builder)
    }

    /// The kind of event that the trigger is subscribed to.
    pub fn event_type(&self) -> (r: EventType)
        ensures
            r == self.event_type,
    {
        self.event_type
    }

    /// Evaluates `event` at the time `now`, the snapshot being `ctx`.
    pub fn on_event(&mut self, event: &Event, ctx: &Context, now: i64) -> (evaluation: Evaluation)
        ensures
            old(self).same_rule(final(self)),
            (final(self).progress(), evaluation@) == old(self).trigger_fns.builder.started(
                old(self).progress(),
                *event,
                *ctx,
                now,
                evaluation.pick(),
            ),
            old(self).trigger_fns.builder.picks_fairly(evaluation),
    {
        self.trigger_fns.execute(event, ctx, now)
    }

    /// Takes the evaluation up where it stopped for damage, `damage` being
    /// the sum that was collected.
    pub fn on_damage(&mut self, check: usize, damage: i32, ctx: &Context, now: i64) -> (evaluation:
        Evaluation)
        ensures
            old(self).same_rule(final(self)),
            (final(self).progress(), evaluation@) == old(self).trigger_fns.builder.resumed(
                old(self).progress(),
                check,
                damage,
                *ctx,
                now,
                evaluation.pick(),
            ),
            old(self).trigger_fns.builder.picks_fairly(evaluation),
    {
        self.trigger_fns.resume(check, damage, ctx, now)
    }

    /// Sets the count of every action back to zero.
    pub fn on_event_reset(&mut self)
        ensures
            old(self).same_rule(final(self)),
            final(self).progress() == TriggerBuilder::cleared(old(self).progress()),
    {
        self.trigger_fns.reset()
    }
}

impl TriggerBuilder {
    /// The cursor after the trigger fired `k` times from its start, its
    /// actions running one at a time in turn.
    pub open spec fn cursor_after(&self, k: nat) -> usize
        decreases k,
    {
        if k == 0 {
            0
        } else {
            self.turned(self.cursor_after((k - 1) as nat))
        }
    }
}

/// The remainder of the number after `j`: one more than that of `j`, or
/// zero where that was the largest.
proof fn lemma_mod_step(j: int, n: int)
    requires
        n > 0,
        j >= 0,
    ensures
        0 <= j % n < n,
        j % n == n - 1 ==> (j + 1) % n == 0,
        j % n < n - 1 ==> (j + 1) % n == j % n + 1,
{
    let q = j / n;
    let m = j % n;
    vstd::arithmetic::div_mod::lemma_fundamental_div_mod(j, n);
    vstd::arithmetic::div_mod::lemma_mod_bound(j, n);
    if m == n - 1 {
        assert(j + 1 == (q + 1) * n + 0) by (nonlinear_arith)
            requires
                j == q * n + m,
                m == n - 1,
        ;
        vstd::arithmetic::div_mod::lemma_fundamental_div_mod_converse_mod(j + 1, n, q + 1, 0);
    } else {
        vstd::arithmetic::div_mod::lemma_fundamental_div_mod_converse_mod(j + 1, n, q, m + 1);
    }
}

proof fn lemma_cursor_after(b: TriggerBuilder, k: nat)
    requires
        0 < b.actions@.len() < usize::MAX,
        k > 0,
    ensures
        b.cursor_after(k) == ((k - 1) % (b.actions@.len() as int)) + 1,
    decreases k,
{
    let n = b.actions@.len() as int;
    if k == 1 {
        assert(b.cursor_after(0) == 0);
        assert(0int % n == 0) by (nonlinear_arith)
            requires
                n > 0,
        ;
    } else {
        let before = (k - 2) % n;
        lemma_cursor_after(b, (k - 1) as nat);
        lemma_mod_step(k - 2, n);
        assert(b.cursor_after((k - 1) as nat) == before + 1);
    }
}

/// The actions of a trigger that runs them one at a time take turns: from
/// its start, the firing after `k` others runs the action at position `k`
/// modulo the number of actions. With three actions the first five
/// firings run those at 0, 1, 2, 0, 1.
pub proof fn lemma_actions_take_turns(b: TriggerBuilder, k: nat)
    requires
        0 < b.actions@.len() < usize::MAX,
    ensures
        b.in_turn(b.cursor_after(k)) == (k as int) % (b.actions@.len() as int),
{
    let n = b.actions@.len() as int;
    if k == 0 {
        assert(0int % n == 0) by (nonlinear_arith)
            requires
                n > 0,
        ;
    } else {
        let before = (k - 1) % n;
        lemma_cursor_after(b, k);
        lemma_mod_step(k - 1, n);
        assert(b.cursor_after(k) == before + 1);
    }
}

/// The trigger condition that a configured one asks for.
pub open spec fn trigger_cond_of(trigger_cond: TriggerCondition) -> TriggerCond {
    match trigger_cond {
        TriggerCondition::LongswordLevelChanged { new, old } => TriggerCond::Longsword(
            LongswordCondition { trigger: Some(NewOldValueCmp { new, old }), check: None },
        ),
        TriggerCondition::WeaponType { value } => TriggerCond::WeaponType(
            WeaponTypeCondition { trigger: Some(value), check: None },
        ),
        TriggerCondition::QuestState { value } => TriggerCond::QuestState(
            QuestStateCondition { trigger: resolved(value), check: None },
        ),
        TriggerCondition::Fsm { new, old } => TriggerCond::Fsm(
            FsmCondition { trigger: Some(FsmChange { new, old }), check: None },
        ),
        TriggerCondition::UseItem { item_id } => TriggerCond::UseItem(
            UseItemCondition { trigger: Some(item_id) },
        ),
        TriggerCondition::InsectGlaiveLight { red, white, yellow } => TriggerCond::InsectGlaive(
            InsectGlaiveCondition {
                active: true,
                cond_red: red,
                cond_white: white,
                cond_yellow: yellow,
            },
        ),
        TriggerCondition::ChargeBlade {
            sword_charge_timer,
            shield_charge_timer,
            power_axe_timer,
            phials,
            sword_power,
        } => TriggerCond::ChargeBlade(
            ChargeBladeCondition {
                active: true,
                sword_charge_timer,
                shield_charge_timer,
                power_axe_timer,
                phials,
                sword_power,
            },
        ),
    }
}

/// The check condition that a configured one asks for.
pub open spec fn check_cond_of(check_cond: CheckCondition) -> CheckCond {
    match check_cond {
        CheckCondition::LongswordLevel { value } => CheckCond::Longsword(
            LongswordCondition { trigger: None, check: Some(value) },
        ),
        CheckCondition::WeaponType { value } => CheckCond::WeaponType(
            WeaponTypeCondition { trigger: None, check: Some(value) },
        ),
        CheckCondition::QuestState { value } => CheckCond::QuestState(
            QuestStateCondition { trigger: None, check: Some(value) },
        ),
        CheckCondition::Fsm { value } => CheckCond::Fsm(
            FsmCondition { trigger: None, check: Some(value) },
        ),
        CheckCondition::Damage { damage, fsm, timeout, break_on_fsm_changed } => CheckCond::Damage(
            DamageCondition {
                rule: Some(
                    DamageRule {
                        cond_damage: damage,
                        cond_fsm: fsm,
                        cond_timeout: match timeout {
                            Some(t) => t,
                            None => DEFAULT_TIMEOUT,
                        },
                        cond_break_on_fsm_changed: break_on_fsm_changed,
                    },
                ),
            },
        ),
    }
}

/// Makes the trigger condition that a configured one asks for.
pub fn register_trigger_condition(trigger_cond: TriggerCondition) -> (r: TriggerCond)
    ensures
        r == trigger_cond_of(trigger_cond),
{
    match trigger_cond {
        TriggerCondition::LongswordLevelChanged { .. } => TriggerCond::Longsword(
            LongswordCondition::new_trigger(trigger_cond),
        ),
        TriggerCondition::WeaponType { .. } => TriggerCond::WeaponType(
            WeaponTypeCondition::new_trigger(trigger_cond),
        ),
        TriggerCondition::QuestState { .. } => TriggerCond::QuestState(
            QuestStateCondition::new_trigger(trigger_cond),
        ),
        TriggerCondition::Fsm { .. } => TriggerCond::Fsm(FsmCondition::new_trigger(trigger_cond)),
        TriggerCondition::InsectGlaiveLight { .. } => TriggerCond::InsectGlaive(
            InsectGlaiveCondition::new_trigger(trigger_cond),
        ),
        TriggerCondition::ChargeBlade { .. } => TriggerCond::ChargeBlade(
            ChargeBladeCondition::new_trigger(trigger_cond),
        ),
        TriggerCondition::UseItem { .. } => TriggerCond::UseItem(
            UseItemCondition::new_trigger(trigger_cond),
        ),
    }
}

/// Makes the check condition that a configured one asks for.
pub fn register_check_condition(check_cond: CheckCondition) -> (r: CheckCond)
    ensures
        r == check_cond_of(check_cond),
{
    match check_cond {
        CheckCondition::LongswordLevel { .. } => CheckCond::Longsword(
            LongswordCondition::new_check(check_cond),
        ),
        CheckCondition::WeaponType { .. } => CheckCond::WeaponType(
            WeaponTypeCondition::new_check(check_cond),
        ),
        CheckCondition::QuestState { .. } => CheckCond::QuestState(
            QuestStateCondition::new_check(check_cond),
        ),
        CheckCondition::Fsm { .. } => CheckCond::Fsm(FsmCondition::new_check(check_cond)),
        CheckCondition::Damage { .. } => CheckCond::Damage(DamageCondition::new_check(check_cond)),
    }
}

impl Trigger {
    /// Whether this is the trigger that the configured rule `t_cfg` asks
    /// for, before it got any event: the conditions and the actions of the
    /// rule in their order, its mode or, if it names none, that in which
    /// all actions run, its cooldown or none at all, no count, and the
    /// first action next in turn.
    pub open spec fn registered_from(&self, t_cfg: configs::Trigger) -> bool {
        let b = self.trigger_fns.builder;
        &&& (self.name matches Some(n) ==> t_cfg.name matches Some(m) && n@ == m@)
        &&& self.name.is_none() ==> t_cfg.name.is_none()
        &&& b.name == self.name
        &&& self.event_type == b.event_type
        &&& b.event_type == b.trigger_condition.event_type_spec()
        &&& b.trigger_condition == trigger_cond_of(t_cfg.trigger_on)
        &&& b.check_conditions@.len() == t_cfg.check@.len()
        &&& forall|i: int|
            0 <= i < t_cfg.check@.len() ==> #[trigger] b.check_conditions@[i] == check_cond_of(
                t_cfg.check@[i],
            )
        &&& b.actions@.len() == t_cfg.action@.len()
        &&& forall|i: int|
            0 <= i < t_cfg.action@.len() ==> (#[trigger] b.actions@[i]).msg@
                == t_cfg.action@[i].param@ && b.actions@[i].cnt == 0 && b.actions@[i].enabled_cnt
                == (t_cfg.enable_cnt == Some(true))
        &&& b.action_mode == match t_cfg.action_mode {
            Some(mode) => mode,
            None => ActionMode::SequentialAll,
        }
        &&& b.cooldown == Some(
            SingleCoolDown {
                cooldown: match t_cfg.cooldown {
                    Some(cooldown) => cooldown,
                    None => 0,
                },
                record: None,
            },
        )
        &&& b.action_idx == 0
    }
}

/// Makes the trigger that a configured rule asks for.
pub fn register_trigger(t_cfg: configs::Trigger) -> (r: Trigger)
    ensures
        r.registered_from(t_cfg),
{
    let configs::Trigger { name, action_mode, action, trigger_on, check, cooldown, enable_cnt } =
        t_cfg;
    let action_mode: ActionMode = match action_mode {
        Some(mode) => mode,
        None => ActionMode::SequentialAll,
    };
    let t_cond = register_trigger_condition(trigger_on);
    let mut builder = TriggerBuilder::new(t_cond);
    builder.set_action_mode(action_mode);
    match &name {
        Some(name) => {
            builder.set_name(name.as_str());
        },
        None => {},
    }
    let cooldown: i64 = match cooldown {
        Some(cooldown) => cooldown,
        None => 0,
    };
    builder.set_cooldown(SingleCoolDown::new(cooldown));
    for check_cond in it: check
        invariant
            it.seq() == t_cfg.check@,
            builder.check_conditions@.len() == it.index(),
            forall|i: int|
                0 <= i < it.index() ==> #[trigger] builder.check_conditions@[i] == check_cond_of(
                    t_cfg.check@[i],
                ),
            builder.name.is_some() == t_cfg.name.is_some(),
            builder.name matches Some(n) ==> n@ == t_cfg.name.unwrap()@,
            builder.actions@.len() == 0,
            builder.trigger_condition == trigger_cond_of(t_cfg.trigger_on),
            builder.action_mode == action_mode,
            builder.cooldown == Some(SingleCoolDown { cooldown, record: None }),
            builder.event_type == builder.trigger_condition.event_type_spec(),
            builder.action_idx == 0,
    {
        builder.add_check_condition(register_check_condition(check_cond));
    }
    let enable_cnt: bool = match enable_cnt {
        Some(true) => true,
        _ => false,
    };
    let mut i: usize = 0;
    while i < action.len()
        invariant
            i <= action.len(),
            action == t_cfg.action,
            enable_cnt == (t_cfg.enable_cnt == Some(true)),
            builder.actions@.len() == i,
            forall|j: int|
                0 <= j < i ==> (#[trigger] builder.actions@[j]).msg@ == t_cfg.action@[j].param@
                    && builder.actions@[j].cnt == 0 && builder.actions@[j].enabled_cnt
                    == enable_cnt,
            builder.check_conditions@.len() == t_cfg.check@.len(),
            forall|j: int|
                0 <= j < t_cfg.check@.len() ==> #[trigger] builder.check_conditions@[j]
                    == check_cond_of(t_cfg.check@[j]),
            builder.name.is_some() == t_cfg.name.is_some(),
            builder.name matches Some(n) ==> n@ == t_cfg.name.unwrap()@,
            builder.trigger_condition == trigger_cond_of(t_cfg.trigger_on),
            builder.action_mode == action_mode,
            builder.cooldown == Some(SingleCoolDown { cooldown, record: None }),
            builder.event_type == builder.trigger_condition.event_type_spec(),
            builder.action_idx == 0,
        decreases action.len() - i,
    {
        match create_action(&action[i], enable_cnt) {
            Some(made) => {
                builder.add_action(made);
            },
            None => {},
        }
        i += 1;
    }
    builder.build()
}

} // verus!
