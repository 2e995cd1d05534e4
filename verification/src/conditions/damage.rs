//! The condition on the damage that is dealt after a rule was set off.
//!
//! Damage arrives over time, so the condition is tested in two steps. The
//! first says whether damage is to be collected at all, for how long and
//! in which way. The caller collects it and comes back with the sum, which
//! the second step tests.

use vstd::prelude::*;
use crate::actions::{inserted, ActionContext};
use crate::configs::{CheckCondition, FsmConfig, ValueCmp};
use crate::game_context::{Context, Fsm};
use crate::text::{decimal, decimal_of, from_chars};

verus! {

/// How long damage is collected where the configuration does not say, in milliseconds.
pub const DEFAULT_TIMEOUT: i32 = 2000;

/// What a damage condition was configured with.
#[derive(Debug)]
pub struct DamageRule {
    /// The constraint on the damage that was collected.
    pub cond_damage: ValueCmp,
    /// The machine state in which collecting starts.
    pub cond_fsm: FsmConfig,
    /// How long damage is collected, in milliseconds.
    pub cond_timeout: i32,
    /// Whether collecting ends as soon as the machine leaves the state.
    pub cond_break_on_fsm_changed: bool,
}

/// Holds when the damage dealt after the rule was set off meets a constraint.
#[derive(Debug)]
pub struct DamageCondition {
    /// `None` where the condition was made from a configuration of another
    /// kind: it then never holds.
    pub rule: Option<DamageRule>,
}

/// What is to be collected for a damage condition.
#[derive(Clone, Copy, Debug, PartialEq, Eq, Structural)]
pub struct DamageQuery {
    /// The machine state at the start.
    pub fsm: Fsm,
    /// How long to collect at most, in milliseconds.
    pub timeout: i32,
    /// `true`: the damage dealt in state `fsm`, until the machine leaves it
    /// or the time is over. `false`: all damage dealt from now until the
    /// time is over.
    pub until_fsm_changes: bool,
}

impl DamageCondition {
    /// A configuration of another kind gives a condition that never holds.
    pub fn new_check(cond: CheckCondition) -> (r: Self)
        ensures
            r.rule == match cond {
                CheckCondition::Damage { damage, fsm, timeout, break_on_fsm_changed } => Some(
                    DamageRule {
                        cond_damage: damage,
                        cond_fsm: fsm,
                        cond_timeout: match timeout {
                            Some(t) => t,
                            None => DEFAULT_TIMEOUT,
                        },
                        cond_break_on_fsm_changed: break_on_fsm_changed,
                    },
                ),
                _ => None,
            },
    {
        match cond {
            CheckCondition::Damage { damage, fsm, timeout, break_on_fsm_changed } => {
                let cond_timeout: i32 = match timeout {
                    Some(t) => t,
                    None => DEFAULT_TIMEOUT,
                };
                DamageCondition {
                    rule: Some(
                        DamageRule {
                            cond_damage: damage,
                            cond_fsm: fsm,
                            cond_timeout,
                            cond_break_on_fsm_changed: break_on_fsm_changed,
                        },
                    ),
                }
            },
            _ => DamageCondition { rule: None },
        }
    }

    /// What is to be collected, given the snapshot: something only while
    /// the machine is in the configured state. Where nothing is to be
    /// collected the condition does not hold.
    pub open spec fn query_spec(&self, ctx: Context) -> Option<DamageQuery> {
        match self.rule {
            Some(rule) => if rule.cond_fsm.matches_spec(ctx.fsm) {
                Some(
                    DamageQuery {
                        fsm: ctx.fsm,
                        timeout: rule.cond_timeout,
                        until_fsm_changes: rule.cond_break_on_fsm_changed,
                    },
                )
            } else {
                None
            },
            None => None,
        }
    }

    /// Whether the condition holds of the damage that was collected.
    pub open spec fn accepts(&self, damage: i32) -> bool {
        self.rule matches Some(rule) && rule.cond_damage.matches_spec(damage)
    }

    /// The first step: what is to be collected, if anything.
    pub fn query(&self, ctx: &Context) -> (r: Option<DamageQuery>)
        ensures
            r == self.query_spec(*ctx),
    {
        match &self.rule {
            Some(rule) => {
                if rule.cond_fsm.matches(&ctx.fsm) {
                    Some(
                        DamageQuery {
                            fsm: ctx.fsm,
                            timeout: rule.cond_timeout,
                            until_fsm_changes: rule.cond_break_on_fsm_changed,
                        },
                    )
                } else {
                    None
                }
            },
            None => None,
        }
    }

    /// The second step: writes the numeral of the damage into the context,
    /// under the key `damage`, and tests the damage.
    pub fn check(&self, damage: i32, action_ctx: &mut ActionContext) -> (r: bool)
        ensures
            r == self.accepts(damage),
            final(action_ctx)@ == inserted(old(action_ctx)@, "damage"@, decimal(damage as int)),
    {
        let numeral: String = from_chars(&decimal_of(damage));
        action_ctx.insert("damage", numeral.as_str());
        match &self.rule {
            Some(rule) => rule.cond_damage.matches(damage),
            None => false,
        }
    }
}

} // verus!
