//! The conditions of the rules. A trigger condition is tested against an
//! event, on the tick on which something changed; a check condition is
//! tested against the snapshot as it is when a rule is about to fire.

use vstd::prelude::*;
use vstd::string::StringExecFns;
use crate::configs::{NewOldValueCmp, ValueCmp};
use crate::game_context::Gauge;

pub mod charge_blade;
pub mod damage;
pub mod fsm;
pub mod insect_glaive;
pub mod longsword;
pub mod quest_state;
pub mod use_item;
pub mod weapon_id;

verus! {

/// Whether `observed` meets a constraint that may be absent. An absent
/// constraint is met by every value.
pub open spec fn meets(constraint: Option<ValueCmp>, observed: i32) -> bool {
    constraint matches Some(c) ==> c.matches_spec(observed)
}

/// Whether a value after a change and the value before it meet a pair of
/// constraints. An absent pair, and an absent half, is met by every value.
pub open spec fn pair_meets(pair: Option<NewOldValueCmp>, new: i32, old: i32) -> bool {
    pair matches Some(p) ==> meets(p.new, new) && meets(p.old, old)
}

/// Tests `observed` against a constraint that may be absent.
pub fn check_value(constraint: &Option<ValueCmp>, observed: i32) -> (r: bool)
    ensures
        r == meets(*constraint, observed),
{
    match constraint {
        Some(c) => c.matches(observed),
        None => true,
    }
}

/// Tests a value after a change and the value before it against a pair of constraints.
pub fn compare_cfg_ctx(cfg_value: &Option<NewOldValueCmp>, ctx_new: i32, ctx_old: i32) -> (r: bool)
    ensures
        r == pair_meets(*cfg_value, ctx_new, ctx_old),
{
    match cfg_value {
        None => true,
        Some(pair) => check_value(&pair.new, ctx_new) && check_value(&pair.old, ctx_old),
    }
}

/// Tests two readings of a meter against a pair of constraints. A reading
/// is compared with its fraction cut off.
pub fn compare_cfg_gauge(cfg_value: &Option<NewOldValueCmp>, ctx_new: Gauge, ctx_old: Gauge) -> (r:
    bool)
    ensures
        r == pair_meets(*cfg_value, ctx_new.whole, ctx_old.whole),
{
    compare_cfg_ctx(cfg_value, ctx_new.whole, ctx_old.whole)
}

/// Whether two texts are the same.
pub fn same_text(a: &str, b: &str) -> (r: bool)
    ensures
        r == (a@ == b@),
{
    let a_owned: String = String::from_str(a);
    let b_owned: String = String::from_str(b);
    a_owned == b_owned
}

/// A range that asks for one thing: a value other than `n`.
pub open spec fn other_than(n: i32) -> ValueCmp {
    ValueCmp::Cmp { gt: None, ge: None, lt: None, le: None, ne: Some(n), is_in: None, nin: None }
}

/// A range that asks for one thing: a value above `n`.
pub open spec fn above(n: i32) -> ValueCmp {
    ValueCmp::Cmp { gt: Some(n), ge: None, lt: None, le: None, ne: None, is_in: None, nin: None }
}

/// A range that asks for one thing: a value of `n` at most.
pub open spec fn at_most(n: i32) -> ValueCmp {
    ValueCmp::Cmp { gt: None, ge: None, lt: None, le: Some(n), ne: None, is_in: None, nin: None }
}

} // verus!
