//! The configured rules: constraints on observed values, the conditions built
//! from them, and the checks a configuration must pass before it is used.

use vstd::prelude::*;
use vstd::string::StringExecFns;
use vstd::std_specs::cmp::PartialEqSpecImpl;
use crate::game_context::Fsm;

verus! {

/// A constraint on one observed integer.
#[derive(Debug)]
pub enum ValueCmp {
    /// The observed value equals this integer.
    EqInt(i32),
    /// Every bound that is present must hold; a bound that is absent asks nothing.
    Cmp {
        gt: Option<i32>,
        ge: Option<i32>,
        lt: Option<i32>,
        le: Option<i32>,
        ne: Option<i32>,
        is_in: Option<Vec<i32>>,
        nin: Option<Vec<i32>>,
    },
    /// A name that the owning condition resolves to a concrete constraint.
    /// Unresolved, it holds of no value.
    Special(String),
}

impl ValueCmp {
    /// Whether the constraint holds of `observed`.
    pub open spec fn matches_spec(&self, observed: i32) -> bool {
        match self {
            ValueCmp::EqInt(n) => observed == *n,
            ValueCmp::Cmp { gt, ge, lt, le, ne, is_in, nin } => {
                &&& (gt matches Some(v) ==> observed > *v)
                &&& (ge matches Some(v) ==> observed >= *v)
                &&& (lt matches Some(v) ==> observed < *v)
                &&& (le matches Some(v) ==> observed <= *v)
                &&& (ne matches Some(v) ==> observed != *v)
                &&& (is_in matches Some(v) ==> v@.contains(observed))
                &&& (nin matches Some(v) ==> !v@.contains(observed))
            },
            ValueCmp::Special(_) => false,
        }
    }

    /// Tests `observed` against the constraint.
    pub fn matches(&self, observed: i32) -> (r: bool)
        ensures
            r == self.matches_spec(observed),
    {
        match self {
            ValueCmp::EqInt(n) => observed == *n,
            ValueCmp::Cmp { gt, ge, lt, le, ne, is_in, nin } => {
                let above: bool = match gt {
                    Some(v) => observed > *v,
                    None => true,
                };
                let at_least: bool = match ge {
                    Some(v) => observed >= *v,
                    None => true,
                };
                let below: bool = match lt {
                    Some(v) => observed < *v,
                    None => true,
                };
                let at_most: bool = match le {
                    Some(v) => observed <= *v,
                    None => true,
                };
                let differs: bool = match ne {
                    Some(v) => observed != *v,
                    None => true,
                };
                let listed: bool = match is_in {
                    Some(v) => contains(v, observed),
                    None => true,
                };
                let unlisted: bool = match nin {
                    Some(v) => !contains(v, observed),
                    None => true,
                };
                above && at_least && below && at_most && differs && listed && unlisted
            },
            ValueCmp::Special(_) => false,
        }
    }
}

/// A range without any bound holds of every value.
pub proof fn lemma_unbounded_range_matches_everything(constraint: ValueCmp, observed: i32)
    requires
        constraint matches ValueCmp::Cmp { gt, ge, lt, le, ne, is_in, nin } && gt.is_none()
            && ge.is_none() && lt.is_none() && le.is_none() && ne.is_none() && is_in.is_none()
            && nin.is_none(),
    ensures
        constraint.matches_spec(observed),
{
}

/// Equality with `n` holds of `n` and of no other value: not of the value
/// one above `n`, nor of the value one below.
pub proof fn lemma_eq_int_matches_itself_alone(n: i32, observed: i32)
    ensures
        ValueCmp::EqInt(n).matches_spec(observed) <==> observed == n,
        ValueCmp::EqInt(n).matches_spec(n),
        n < i32::MAX ==> !ValueCmp::EqInt(n).matches_spec((n + 1) as i32),
        n > i32::MIN ==> !ValueCmp::EqInt(n).matches_spec((n - 1) as i32),
{
}

/// Whether `value` occurs in `items`.
fn contains(items: &Vec<i32>, value: i32) -> (r: bool)
    ensures
        r == items@.contains(value),
{
    let mut i: usize = 0;
    while i < items.len()
        invariant
            i <= items.len(),
            forall|j: int| 0 <= j < i ==> items@[j] != value,
        decreases items.len() - i,
    {
        if items[i] == value {
            return true;
        }
        i += 1;
    }
    false
}

impl PartialEq<i32> for ValueCmp {
    fn eq(&self, other: &i32) -> (r: bool) {
        self.matches(*other)
    }
}

impl PartialEqSpecImpl<i32> for ValueCmp {
    open spec fn obeys_eq_spec() -> bool {
        true
    }

    open spec fn eq_spec(&self, other: &i32) -> bool {
        self.matches_spec(*other)
    }
}

} // verus!


verus! {

/// Why a configuration cannot be used.
#[derive(Debug)]
pub enum ConfigError {
    /// The text of the configuration could not be understood.
    Parse { message: String },
    /// The configuration could not be read.
    Io { message: String },
    /// The configuration was understood but asks for something that is not allowed.
    Validate { reason: String },
}

/// A configuration: the rules, and the cooldown of a rule that names none.
#[derive(Debug)]
pub struct Config {
    /// The cooldown of every rule that has none of its own, in milliseconds.
    pub trigger_cd: i64,
    pub trigger: Vec<Trigger>,
}

/// One rule as it is configured.
#[derive(Debug)]
pub struct Trigger {
    pub name: Option<String>,
    /// How the actions are chosen when the rule fires; all of them in order, if absent.
    pub action_mode: Option<ActionMode>,
    pub action: Vec<Action>,
    /// The one condition that the rule fires on.
    pub trigger_on: TriggerCondition,
    /// What must hold besides, all of it.
    pub check: Vec<CheckCondition>,
    /// The cooldown of this rule, in milliseconds.
    pub cooldown: Option<i64>,
    /// Whether the actions count how often they ran.
    pub enable_cnt: Option<bool>,
}

/// One action of a rule: what to do, and with what.
#[derive(Debug)]
pub struct Action {
    pub cmd: Command,
    pub param: String,
}

/// A condition on a change. It holds only on the tick on which the value changes.
#[derive(Debug)]
#[allow(inconsistent_fields)]
pub enum TriggerCondition {
    LongswordLevelChanged { new: Option<ValueCmp>, old: Option<ValueCmp> },
    WeaponType { value: ValueCmp },
    QuestState { value: ValueCmp },
    Fsm { new: Option<FsmConfig>, old: Option<FsmConfig> },
    UseItem { item_id: ValueCmp },
    InsectGlaiveLight {
        red: Option<NewOldValueCmp>,
        white: Option<NewOldValueCmp>,
        yellow: Option<NewOldValueCmp>,
    },
    ChargeBlade {
        sword_charge_timer: Option<NewOldValueCmp>,
        shield_charge_timer: Option<NewOldValueCmp>,
        power_axe_timer: Option<NewOldValueCmp>,
        phials: Option<NewOldValueCmp>,
        sword_power: Option<NewOldValueCmp>,
    },
}

/// A constraint on a value after a change and one on the value before it.
#[derive(Debug)]
pub struct NewOldValueCmp {
    pub new: Option<ValueCmp>,
    pub old: Option<ValueCmp>,
}

/// A condition on the state as it is when a rule is about to fire.
#[derive(Debug)]
#[allow(inconsistent_fields)]
pub enum CheckCondition {
    LongswordLevel { value: ValueCmp },
    WeaponType { value: ValueCmp },
    QuestState { value: ValueCmp },
    Fsm { value: FsmConfig },
    Damage {
        /// The constraint on the damage that was collected.
        damage: ValueCmp,
        /// The machine state in which collecting starts.
        fsm: FsmConfig,
        /// How long damage is collected, in milliseconds; 2000 if absent.
        timeout: Option<i32>,
        /// Whether collecting ends as soon as the machine leaves the state.
        break_on_fsm_changed: bool,
    },
}

/// A constraint on a state of the observed state machine, half by half.
#[derive(Debug)]
pub struct FsmConfig {
    pub target: ValueCmp,
    pub id: ValueCmp,
}

impl FsmConfig {
    /// Whether both halves of `fsm` meet their constraints.
    pub open spec fn matches_spec(&self, fsm: Fsm) -> bool {
        self.target.matches_spec(fsm.target) && self.id.matches_spec(fsm.id)
    }

    /// Tests a machine state against the constraint.
    pub fn matches(&self, fsm: &Fsm) -> (r: bool)
        ensures
            r == self.matches_spec(*fsm),
    {
        self.target.matches(fsm.target) && self.id.matches(fsm.id)
    }
}

impl PartialEq<Fsm> for FsmConfig {
    fn eq(&self, other: &Fsm) -> (r: bool) {
        self.matches(other)
    }
}

impl PartialEqSpecImpl<Fsm> for FsmConfig {
    open spec fn obeys_eq_spec() -> bool {
        true
    }

    open spec fn eq_spec(&self, other: &Fsm) -> bool {
        self.matches_spec(*other)
    }
}

/// What an action does.
#[derive(Clone, Copy, Debug, PartialEq, Eq, Structural)]
pub enum Command {
    /// Sends a chat message.
    SendChatMessage,
}

/// How the actions of a rule are chosen when it fires.
#[derive(Clone, Copy, Debug, PartialEq, Eq, Structural)]
pub enum ActionMode {
    /// All of them, in the configured order.
    SequentialAll,
    /// One each time, in turn.
    SequentialOne,
    /// One each time, picked at random.
    Random,
}

impl Trigger {
    /// Whether the rule watches the long sword's level and constrains
    /// neither the new level nor the old one.
    pub open spec fn is_unconstrained(&self) -> bool {
        self.trigger_on matches TriggerCondition::LongswordLevelChanged { new, old } && new.is_none()
            && old.is_none()
    }

    /// This rule with its cooldown set: its own, or `trigger_cd` if it has none.
    pub open spec fn with_cooldown(self, trigger_cd: i64) -> Trigger {
        Trigger {
            cooldown: Some(
                match self.cooldown {
                    Some(own) => own,
                    None => trigger_cd,
                },
            ),
            ..self
        }
    }
}

impl Config {
    /// Whether some rule is unconstrained.
    pub open spec fn has_unconstrained(&self) -> bool {
        exists|i: int| 0 <= i < self.trigger@.len() && (#[trigger] self.trigger@[i]).is_unconstrained()
    }

    /// Why the configuration is refused, if it is: for a negative cooldown
    /// for all rules, or else for a rule that is unconstrained.
    pub open spec fn refusal(&self) -> Option<Seq<char>> {
        if self.trigger_cd < 0 {
            Some("event_cd 不能小于0.0"@)
        } else if self.has_unconstrained() {
            Some("LongswordLevelChanged 参数不能都为空"@)
        } else {
            None
        }
    }
}

impl ConfigError {
    /// The error in words: what went wrong, a colon, and the cause.
    pub open spec fn message_spec(&self) -> Seq<char> {
        match self {
            ConfigError::Parse { message } => "解析配置文件失败："@ + message@,
            ConfigError::Io { message } => "读取配置文件失败："@ + message@,
            ConfigError::Validate { reason } => "验证配置文件失败："@ + reason@,
        }
    }

    /// The error in words.
    pub fn message(&self) -> (r: String)
        ensures
            r@ == self.message_spec(),
    {
        match self {
            ConfigError::Parse { message } => String::from_str("解析配置文件失败：").concat(
                message.as_str(),
            ),
            ConfigError::Io { message } => String::from_str("读取配置文件失败：").concat(
                message.as_str(),
            ),
            ConfigError::Validate { reason } => String::from_str("验证配置文件失败：").concat(
                reason.as_str(),
            ),
        }
    }
}

/// Checks a configuration that was read and completes it: every rule gets
/// the cooldown it is to run with. A negative cooldown for all rules is
/// refused, and so is a rule on the long sword's level that constrains
/// nothing; the first of the two is the one reported.
pub fn load_config(config: Config) -> (r: Result<Config, ConfigError>)
    ensures
        config.refusal() matches Some(why) ==> (r matches Err(ConfigError::Validate { reason })
            && reason@ == why),
        config.refusal().is_none() ==> (r matches Ok(checked) && checked.trigger_cd
            == config.trigger_cd && checked.trigger@.len() == config.trigger@.len() && forall|
            i: int,
        |
            0 <= i < config.trigger@.len() ==> #[trigger] checked.trigger@[i]
                == config.trigger@[i].with_cooldown(config.trigger_cd)),
{
    if config.trigger_cd < 0 {
        return Err(ConfigError::Validate { reason: "event_cd 不能小于0.0".to_string() });
    }
    let mut checked = config;
    let trigger_cd: i64 = checked.trigger_cd;
    let mut i: usize = 0;
    while i < checked.trigger.len()
        invariant
            i <= checked.trigger.len(),
            config.trigger_cd >= 0,
            checked.trigger_cd == config.trigger_cd,
            trigger_cd == config.trigger_cd,
            checked.trigger@.len() == config.trigger@.len(),
            forall|j: int| 0 <= j < i ==> !(#[trigger] config.trigger@[j]).is_unconstrained(),
            forall|j: int|
                0 <= j < i ==> #[trigger] checked.trigger@[j] == config.trigger@[j].with_cooldown(
                    trigger_cd,
                ),
            forall|j: int|
                i <= j < checked.trigger@.len() ==> checked.trigger@[j] == config.trigger@[j],
        decreases checked.trigger.len() - i,
    {
        let own: i64 = match checked.trigger[i].cooldown {
            Some(own) => own,
            None => trigger_cd,
        };
        checked.trigger[i].cooldown = Some(own);
        let unconstrained: bool = match &checked.trigger[i].trigger_on {
            TriggerCondition::LongswordLevelChanged { new, old } => new.is_none() && old.is_none(),
            _ => false,
        };
        if unconstrained {
            return Err(
                ConfigError::Validate { reason: "LongswordLevelChanged 参数不能都为空".to_string() },
            );
        }
        i += 1;
    }
    Ok(checked)
}

} // verus!
