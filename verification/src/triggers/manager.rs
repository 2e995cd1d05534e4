//! The manager: it holds the triggers and the snapshot, and hands each
//! event to the triggers that it concerns.

use vstd::prelude::*;
use crate::clock::now_millis;
use crate::conditions::damage::DamageQuery;
use crate::conditions::quest_state::QUEST_LEFT;
use crate::event::{Event, EventType};
use crate::game_context::Context;
use crate::triggers::{Evaluation, Outcome, Progress, Trigger, TriggerBuilder, Verdict};

verus! {

/// The number of kinds of events.
pub const EVENT_KINDS: usize = 10;

/// The place of a kind of event in the index of the manager.
pub open spec fn kind_index_spec(kind: EventType) -> usize {
    match kind {
        EventType::LoadTriggers => 0,
        EventType::UpdateContext => 1,
        EventType::LongswordLevelChanged => 2,
        EventType::WeaponTypeChanged => 3,
        EventType::QuestStateChanged => 4,
        EventType::FsmChanged => 5,
        EventType::UseItem => 6,
        EventType::InsectGlaive => 7,
        EventType::ChargeBlade => 8,
        EventType::Damage => 9,
    }
}

fn kind_index(kind: EventType) -> (r: usize)
    ensures
        r == kind_index_spec(kind),
        r < EVENT_KINDS,
{
    match kind {
        EventType::LoadTriggers => 0,
        EventType::UpdateContext => 1,
        EventType::LongswordLevelChanged => 2,
        EventType::WeaponTypeChanged => 3,
        EventType::QuestStateChanged => 4,
        EventType::FsmChanged => 5,
        EventType::UseItem => 6,
        EventType::InsectGlaive => 7,
        EventType::ChargeBlade => 8,
        EventType::Damage => 9,
    }
}

/// The positions of the triggers that are subscribed to `kind`, ascending.
pub open spec fn positions_of(triggers: Seq<Trigger>, kind: EventType) -> Seq<usize>
    decreases triggers.len(),
{
    if triggers.len() == 0 {
        Seq::empty()
    } else {
        let before = positions_of(triggers.drop_last(), kind);
        if triggers.last().event_type == kind {
            before.push((triggers.len() - 1) as usize)
        } else {
            before
        }
    }
}

/// The positions of all of `n` triggers, ascending.
pub open spec fn all_positions(n: nat) -> Seq<usize> {
    Seq::new(n, |i: int| i as usize)
}

/// Whether `route` holds positions below `n`, each above the one before it.
pub open spec fn ascending(route: Seq<usize>, n: nat) -> bool {
    &&& forall|i: int| 0 <= i < route.len() ==> #[trigger] route[i] < n
    &&& forall|i: int, j: int| 0 <= i < j < route.len() ==> route[i] < route[j]
}

/// An event of this kind goes to every trigger, whatever it is subscribed to.
pub open spec fn is_broadcast(event: Event) -> bool {
    event is QuestStateChanged || event is Damage
}

/// After an event of this kind every trigger is reset: the player has come
/// back to the hub.
pub open spec fn resets(event: Event) -> bool {
    event matches Event::QuestStateChanged { new, .. } && new == QUEST_LEFT
}

/// The positions of the triggers that `event` goes to, in the order in
/// which they get it.
pub open spec fn route_of(triggers: Seq<Trigger>, event: Event) -> Seq<usize> {
    if is_broadcast(event) {
        all_positions(triggers.len())
    } else {
        positions_of(triggers, event.event_type_spec())
    }
}

/// The triggers subscribed to a kind are found at the positions that
/// `positions_of` gives, and nowhere else; the positions ascend.
pub proof fn lemma_positions_of(triggers: Seq<Trigger>, kind: EventType)
    requires
        triggers.len() <= usize::MAX,
    ensures
        ascending(positions_of(triggers, kind), triggers.len()),
        forall|i: int|
            0 <= i < positions_of(triggers, kind).len() ==> triggers[#[trigger] positions_of(
                triggers,
                kind,
            )[i] as int].event_type == kind,
        forall|p: int|
            0 <= p < triggers.len() && (#[trigger] triggers[p]).event_type == kind ==> positions_of(
                triggers,
                kind,
            ).contains(p as usize),
    decreases triggers.len(),
{
    if triggers.len() > 0 {
        let shorter = triggers.drop_last();
        let before = positions_of(shorter, kind);
        let route = positions_of(triggers, kind);
        lemma_positions_of(shorter, kind);
        assert forall|p: int| 0 <= p < triggers.len() && (#[trigger] triggers[p]).event_type
            == kind implies route.contains(p as usize) by {
            if p < triggers.len() - 1 {
                assert(shorter[p] == triggers[p]);
                let at = choose|at: int| 0 <= at < before.len() && before[at] == p as usize;
                assert(route[at] == p as usize);
            } else {
                assert(route[route.len() - 1] == p as usize);
            }
        }
        assert forall|i: int| 0 <= i < route.len() implies triggers[#[trigger] route[i] as int].event_type
            == kind by {
            if i < before.len() {
                assert(shorter[before[i] as int] == triggers[before[i] as int]);
            }
        }
    }
}

/// Triggers that are the same rules as before are found at the same positions.
proof fn lemma_positions_of_same_rules(before: Seq<Trigger>, after: Seq<Trigger>, kind: EventType)
    requires
        before.len() == after.len(),
        forall|t: int| 0 <= t < before.len() ==> (#[trigger] after[t]).event_type == before[t].event_type,
    ensures
        positions_of(after, kind) == positions_of(before, kind),
    decreases before.len(),
{
    if before.len() > 0 {
        assert forall|t: int| 0 <= t < before.drop_last().len() implies (#[trigger] after.drop_last()[t]).event_type
            == before.drop_last()[t].event_type by {
            assert(after.drop_last()[t] == after[t]);
            assert(before.drop_last()[t] == before[t]);
        }
        lemma_positions_of_same_rules(before.drop_last(), after.drop_last(), kind);
    }
}

/// Where an evaluation stopped for damage: the caller collects the damage
/// that `query` asks for and hands the ticket back with the sum.
#[derive(Clone, Copy, Debug, PartialEq, Eq, Structural)]
pub struct Ticket {
    /// The position on the route of the trigger that waits.
    pub position: usize,
    /// The position of its check condition that waits.
    pub check: usize,
    pub query: DamageQuery,
}

/// What came of handing an event to the triggers on its route.
#[derive(Debug)]
pub struct Step {
    /// How the evaluation of each trigger ended, in the order of the route,
    /// from the trigger that the step began with.
    pub outcomes: Vec<Outcome>,
    /// `None` where the end of the route was reached. Else the trigger
    /// behind those in `outcomes` waits for damage, and the triggers behind
    /// it have not had the event yet.
    pub ticket: Option<Ticket>,
}

impl Trigger {
    /// What the evaluation of `event` comes to, from its start or, where
    /// `resume` gives the check condition that waited and the damage that
    /// was collected, from there.
    pub open spec fn evaluated(
        &self,
        event: Event,
        ctx: Context,
        resume: Option<(usize, i32)>,
        now: i64,
        pick: usize,
    ) -> (Progress, Verdict) {
        match resume {
            None => self.trigger_fns.builder.started(self.progress(), event, ctx, now, pick),
            Some((check, damage)) => self.trigger_fns.builder.resumed(
                self.progress(),
                check,
                damage,
                ctx,
                now,
                pick,
            ),
        }
    }

    /// Whether `after` is this trigger once it has evaluated `event` to
    /// the end, with `outcome`, and was then reset if `reset` says so.
    pub open spec fn completed(
        &self,
        after: &Trigger,
        event: Event,
        ctx: Context,
        resume: Option<(usize, i32)>,
        reset: bool,
        now: i64,
        outcome: Outcome,
    ) -> bool {
        let expected = self.evaluated(event, ctx, resume, now, outcome.pick());
        &&& self.same_rule(after)
        &&& outcome@ == expected.1
        &&& after.progress() == if reset {
            TriggerBuilder::cleared(expected.0)
        } else {
            expected.0
        }
        &&& self.trigger_fns.builder.picks_fairly(Evaluation::Done(outcome))
    }

    /// Whether `after` is this trigger once it has evaluated `event` up to
    /// the check condition at `check`, which waits for the damage that
    /// `query` asks for.
    pub open spec fn paused(
        &self,
        after: &Trigger,
        event: Event,
        ctx: Context,
        resume: Option<(usize, i32)>,
        now: i64,
        check: usize,
        query: DamageQuery,
    ) -> bool {
        let expected = self.evaluated(event, ctx, resume, now, 0);
        &&& self.same_rule(after)
        &&& expected.1 == (Verdict::Paused { check, query })
        &&& after.progress() == expected.0
    }
}

/// Whether `t` is one of the `count` positions on `route` from `from` on.
pub open spec fn on_route(route: Seq<usize>, from: int, count: int, t: int) -> bool {
    exists|k: int| from <= k < from + count && k < route.len() && #[trigger] route[k] == t
}

/// Whether `after` are the triggers `before` once `event` was handed to
/// those on `route` from position `from` on, one after the other, at the
/// time `now`, with `step` as the result.
///
/// `resume` is `None` for an event that is new. For one whose evaluation is
/// taken up again it gives the check condition that waited in the trigger
/// at `from`, and the damage that was collected for it.
///
/// Every trigger that `step` has an outcome for has evaluated the event to
/// the end, and was reset afterwards if `reset` says so. Where `step` holds
/// a ticket, the trigger behind those waits for damage. No other trigger
/// has changed.
pub open spec fn delivered(
    before: Seq<Trigger>,
    after: Seq<Trigger>,
    ctx: Context,
    event: Event,
    route: Seq<usize>,
    from: int,
    resume: Option<(usize, i32)>,
    reset: bool,
    now: i64,
    step: Step,
) -> bool {
    let done = step.outcomes@.len() as int;
    &&& after.len() == before.len()
    &&& from + done <= route.len()
    &&& forall|k: int|
        0 <= k < done ==> before[route[from + k] as int].completed(
            &after[route[from + k] as int],
            event,
            ctx,
            if k == 0 {
                resume
            } else {
                None
            },
            reset,
            now,
            #[trigger] step.outcomes@[k],
        )
    &&& match step.ticket {
        None => from + done == route.len(),
        Some(ticket) => {
            &&& from + done < route.len()
            &&& ticket.position == from + done
            &&& before[route[from + done] as int].paused(
                &after[route[from + done] as int],
                event,
                ctx,
                if done == 0 {
                    resume
                } else {
                    None
                },
                now,
                ticket.check,
                ticket.query,
            )
        },
    }
    &&& forall|t: int|
        0 <= t < before.len() && !on_route(
            route,
            from,
            done + if step.ticket.is_some() {
                1int
            } else {
                0int
            },
            t,
        ) ==> #[trigger] after[t] == before[t]
}

/// Hands `event` to the triggers on `route` from position `from` on.
fn deliver(
    triggers: &mut Vec<Trigger>,
    ctx: &Context,
    event: &Event,
    route: &Vec<usize>,
    from: usize,
    resume: Option<(usize, i32)>,
    reset: bool,
    now: i64,
) -> (step: Step)
    requires
        from <= route@.len(),
        ascending(route@, old(triggers)@.len()),
    ensures
        delivered(old(triggers)@, final(triggers)@, *ctx, *event, route@, from as int, resume, reset, now, step),
        forall|t: int| 0 <= t < old(triggers)@.len() ==> (#[trigger] old(triggers)@[t]).same_rule(&final(triggers)@[t]),
{
    let mut outcomes: Vec<Outcome> = Vec::new();
    let mut pending: Option<(usize, i32)> = resume;
    let mut k: usize = from;
    while k < route.len()
        invariant
            from <= k <= route@.len(),
            ascending(route@, old(triggers)@.len()),
            triggers@.len() == old(triggers)@.len(),
            outcomes@.len() == k - from,
            pending == if k == from {
                resume
            } else {
                None
            },
            forall|j: int|
                0 <= j < k - from ==> old(triggers)@[route@[from + j] as int].completed(
                    &triggers@[route@[from + j] as int],
                    *event,
                    *ctx,
                    if j == 0 {
                        resume
                    } else {
                        None
                    },
                    reset,
                    now,
                    #[trigger] outcomes@[j],
                ),
            forall|t: int|
                0 <= t < triggers@.len() && !on_route(route@, from as int, k - from, t)
                    ==> #[trigger] triggers@[t] == old(triggers)@[t],
            forall|t: int|
                0 <= t < old(triggers)@.len() ==> (#[trigger] old(triggers)@[t]).same_rule(
                    &triggers@[t],
                ),
        decreases route@.len() - k,
    {
        let t: usize = route[k];
        let evaluation: Evaluation = match pending {
            Some((check, damage)) => triggers[t].on_damage(check, damage, ctx, now),
            None => triggers[t].on_event(event, ctx, now),
        };
        pending = None;
        match evaluation {
            Evaluation::Done(outcome) => {
                if reset {
                    triggers[t].on_event_reset();
                }
                outcomes.push(outcome);
                proof {
                    assert forall|u: int|
                        0 <= u < triggers@.len() && !on_route(
                            route@,
                            from as int,
                            k + 1 - from,
                            u,
                        ) implies #[trigger] triggers@[u] == old(triggers)@[u] by {}
                    assert forall|j: int|
                        0 <= j < k + 1 - from implies old(triggers)@[route@[from + j] as int].completed(
                        &triggers@[route@[from + j] as int],
                        *event,
                        *ctx,
                        if j == 0 {
                            resume
                        } else {
                            None
                        },
                        reset,
                        now,
                        #[trigger] outcomes@[j],
                    ) by {}
                }
            },
            Evaluation::Paused { check, query } => {
                let step = Step { outcomes, ticket: Some(Ticket { position: k, check, query }) };
                proof {
                    assert forall|u: int|
                        0 <= u < triggers@.len() && !on_route(
                            route@,
                            from as int,
                            k + 1 - from,
                            u,
                        ) implies #[trigger] triggers@[u] == old(triggers)@[u] by {}
                    assert forall|j: int|
                        0 <= j < k - from implies old(triggers)@[route@[from + j] as int].completed(
                        &triggers@[route@[from + j] as int],
                        *event,
                        *ctx,
                        if j == 0 {
                            resume
                        } else {
                            None
                        },
                        reset,
                        now,
                        #[trigger] step.outcomes@[j],
                    ) by {}
                }
                return step;
            },
        }
        k += 1;
    }
    Step { outcomes, ticket: None }
}

/// The triggers, the snapshot that their conditions are tested against,
/// and an index of the triggers by the kind of event that each is
/// subscribed to.
#[derive(Debug)]
pub struct TriggerManager {
    /// For each kind of event, the positions in `all_triggers` of the
    /// triggers that are subscribed to it, ascending.
    pub triggers: Vec<Vec<usize>>,
    /// The triggers, in the order in which they were registered.
    pub all_triggers: Vec<Trigger>,
    /// The latest snapshot of the observed state.
    pub shared_ctx: Context,
}

impl TriggerManager {
    /// The index holds, for each kind of event, the triggers subscribed to
    /// it and no others.
    pub open spec fn wf(&self) -> bool {
        &&& self.triggers@.len() == EVENT_KINDS
        &&& forall|kind: EventType| #[trigger]
            self.triggers@[kind_index_spec(kind) as int]@ == positions_of(self.all_triggers@, kind)
    }

    /// Looks whether the index is right.
    pub fn is_wf(&self) -> (r: bool)
        ensures
            r == self.wf(),
    {
        if self.triggers.len() != EVENT_KINDS {
            return false;
        }
        let mut k: usize = 0;
        while k < EVENT_KINDS
            invariant
                k <= EVENT_KINDS,
                self.triggers@.len() == EVENT_KINDS,
                forall|kind: EventType|
                    kind_index_spec(kind) < k ==> #[trigger] self.triggers@[kind_index_spec(
                        kind,
                    ) as int]@ == positions_of(self.all_triggers@, kind),
            decreases EVENT_KINDS - k,
        {
            let kind: EventType = kind_at(k);
            let subscribed: Vec<usize> = subscribers(&self.all_triggers, kind);
            if !same_positions(&self.triggers[k], &subscribed) {
                return false;
            }
            assert forall|other: EventType| kind_index_spec(other) < k + 1 implies #[trigger] self.triggers@[kind_index_spec(
                other,
            ) as int]@ == positions_of(self.all_triggers@, other) by {
                if kind_index_spec(other) == k {
                    assert(other == kind);
                }
            }
            k += 1;
        }
        true
    }

    /// A manager without triggers.
    pub fn new(shared_ctx: Context) -> (r: Self)
        ensures
            r.wf(),
            r.all_triggers@.len() == 0,
            r.shared_ctx == shared_ctx,
    {
        let mut triggers: Vec<Vec<usize>> = Vec::new();
        let mut k: usize = 0;
        while k < EVENT_KINDS
            invariant
                k <= EVENT_KINDS,
                triggers@.len() == k,
                forall|j: int| 0 <= j < k ==> (#[trigger] triggers@[j])@ == Seq::<usize>::empty(),
            decreases EVENT_KINDS - k,
        {
            triggers.push(Vec::new());
            k += 1;
        }
        TriggerManager { triggers, all_triggers: Vec::new(), shared_ctx }
    }

    /// Takes a trigger in, behind those that are there.
    pub fn register_trigger(&mut self, trigger: Trigger)
        requires
            old(self).wf(),
        ensures
            final(self).wf(),
            final(self).all_triggers@ == old(self).all_triggers@.push(trigger),
            final(self).shared_ctx == old(self).shared_ctx,
    {
        let position: usize = self.all_triggers.len();
        let kind: usize = kind_index(trigger.event_type());
        self.triggers[kind].push(position);
        self.all_triggers.push(trigger);
        proof {
            assert(self.all_triggers@.drop_last() =~= old(self).all_triggers@);
            assert forall|other: EventType| #[trigger]
                self.triggers@[kind_index_spec(other) as int]@ == positions_of(
                    self.all_triggers@,
                    other,
                ) by {
                assert(old(self).triggers@[kind_index_spec(other) as int]@ == positions_of(
                    old(self).all_triggers@,
                    other,
                ));
            }
        }
    }

    /// Puts a new snapshot in the place of the old one, whole.
    pub fn update_ctx(&mut self, ctx: Context)
        ensures
            final(self).shared_ctx == ctx,
            final(self).triggers == old(self).triggers,
            final(self).all_triggers == old(self).all_triggers,
    {
        self.shared_ctx = ctx;
    }

    /// Whether this is the manager `before` once `event` was handed to
    /// the triggers on `route` from position `from` on: the triggers are
    /// as `delivered` says, and nothing else has changed.
    pub open spec fn handed(
        &self,
        before: &TriggerManager,
        event: Event,
        route: Seq<usize>,
        from: int,
        resume: Option<(usize, i32)>,
        reset: bool,
        now: i64,
        step: Step,
    ) -> bool {
        &&& self.shared_ctx == before.shared_ctx
        &&& self.triggers == before.triggers
        &&& delivered(
            before.all_triggers@,
            self.all_triggers@,
            before.shared_ctx,
            event,
            route,
            from,
            resume,
            reset,
            now,
            step,
        )
    }

    /// Whether this manager holds the rules of `before`, all of them and
    /// no others, in the same order. Their progress may differ.
    pub open spec fn same_rules(&self, before: &TriggerManager) -> bool {
        &&& self.triggers == before.triggers
        &&& self.all_triggers@.len() == before.all_triggers@.len()
        &&& forall|t: int|
            0 <= t < before.all_triggers@.len() ==> (#[trigger] before.all_triggers@[t]).same_rule(
                &self.all_triggers@[t],
            )
    }

    /// Whether every count of every trigger on `route` that `step` has an
    /// outcome for, from position `from` on, is zero.
    pub open spec fn counts_cleared(&self, route: Seq<usize>, from: int, step: Step) -> bool {
        forall|k: int, i: int|
            0 <= k < step.outcomes@.len() && 0 <= i < self.all_triggers@[route[from
                + k] as int].progress().counts.len() ==> #[trigger] self.all_triggers@[route[from
                + k] as int].progress().counts[i] == 0
    }

    /// Whether every count of every trigger is zero.
    pub open spec fn all_counts_cleared(&self) -> bool {
        forall|t: int, i: int|
            0 <= t < self.all_triggers@.len() && 0 <= i
                < self.all_triggers@[t].progress().counts.len()
                ==> #[trigger] self.all_triggers@[t].progress().counts[i] == 0
    }

    /// Hands `event` to every trigger, in the order in which they were
    /// registered, at the time `now`.
    pub fn broadcast(&mut self, event: &Event, now: i64) -> (step: Step)
        requires
            old(self).wf(),
        ensures
            final(self).wf(),
            final(self).same_rules(old(self)),
            final(self).handed(
                old(self),
                *event,
                all_positions(old(self).all_triggers@.len()),
                0,
                None,
                false,
                now,
                step,
            ),
    {
        let route: Vec<usize> = everyone(self.all_triggers.len());
        let step = deliver(&mut self.all_triggers, &self.shared_ctx, event, &route, 0, None, false, now);
        proof {
            self.lemma_wf_kept(old(self));
        }
        step
    }

    /// Hands `event` to every trigger, in the order in which they were
    /// registered, at the time `now`, and resets each trigger once it has
    /// evaluated the event, whether it fired or not: every count of its
    /// actions is zero afterwards.
    pub fn broadcast_and_reset(&mut self, event: &Event, now: i64) -> (step: Step)
        requires
            old(self).wf(),
        ensures
            final(self).wf(),
            final(self).same_rules(old(self)),
            final(self).handed(
                old(self),
                *event,
                all_positions(old(self).all_triggers@.len()),
                0,
                None,
                true,
                now,
                step,
            ),
            final(self).counts_cleared(all_positions(old(self).all_triggers@.len()), 0, step),
            step.ticket.is_none() ==> final(self).all_counts_cleared(),
    {
        let route: Vec<usize> = everyone(self.all_triggers.len());
        let step = deliver(&mut self.all_triggers, &self.shared_ctx, event, &route, 0, None, true, now);
        proof {
            self.lemma_wf_kept(old(self));
            self.lemma_reset_clears(old(self), *event, route@, 0, None, now, step);
            if step.ticket.is_none() {
                assert forall|t: int, i: int|
                    0 <= t < self.all_triggers@.len() && 0 <= i
                        < self.all_triggers@[t].progress().counts.len() implies #[trigger] self.all_triggers@[t].progress().counts[i]
                    == 0 by {
                    assert(route@[0 + t] == t);
                }
            }
        }
        step
    }

    /// Hands `event` to the triggers that it concerns, at the time `now`.
    ///
    /// A change of the quest phase and a hit go to every trigger. Any other
    /// event goes to the triggers that are subscribed to its kind. In both
    /// cases the triggers get the event in the order in which they were
    /// registered. After a change of the quest phase that brings the player
    /// back to the hub, each trigger is reset once it has evaluated the
    /// event.
    pub fn dispatch_at(&mut self, event: &Event, now: i64) -> (step: Step)
        requires
            old(self).wf(),
        ensures
            final(self).wf(),
            final(self).same_rules(old(self)),
            final(self).handed(
                old(self),
                *event,
                route_of(old(self).all_triggers@, *event),
                0,
                None,
                resets(*event),
                now,
                step,
            ),
            resets(*event) ==> final(self).counts_cleared(
                route_of(old(self).all_triggers@, *event),
                0,
                step,
            ),
            resets(*event) && step.ticket.is_none() ==> final(self).all_counts_cleared(),
    {
        match event {
            Event::QuestStateChanged { new, .. } => {
                if *new == QUEST_LEFT {
                    self.broadcast_and_reset(event, now)
                } else {
                    self.broadcast(event, now)
                }
            },
            Event::Damage { .. } => self.broadcast(event, now),
            _ => {
                let kind: usize = kind_index(event.event_type());
                proof {
                    vstd::std_specs::vec::axiom_spec_len(&self.all_triggers);
                    vstd::std_specs::vec::axiom_spec_len(&self.all_triggers);
                lemma_positions_of(self.all_triggers@, event.event_type_spec());
                }
                let step = deliver(
                    &mut self.all_triggers,
                    &self.shared_ctx,
                    event,
                    &self.triggers[kind],
                    0,
                    None,
                    false,
                    now,
                );
                proof {
                    self.lemma_wf_kept(old(self));
                }
                step
            },
        }
    }

    /// Takes up the evaluation of `event` where it stopped for damage:
    /// `ticket` is what the step before gave, and `damage` the sum that was
    /// collected. The trigger that waited goes on from its check condition,
    /// and the triggers behind it on the route get the event.
    ///
    /// A ticket for a position that is not on the route of the event is
    /// stale: nothing happens then.
    pub fn resume_at(&mut self, event: &Event, ticket: Ticket, damage: i32, now: i64) -> (step: Step)
        requires
            old(self).wf(),
        ensures
            final(self).wf(),
            final(self).same_rules(old(self)),
            ticket.position < route_of(old(self).all_triggers@, *event).len() ==> final(self).handed(
                old(self),
                *event,
                route_of(old(self).all_triggers@, *event),
                ticket.position as int,
                Some((ticket.check, damage)),
                resets(*event),
                now,
                step,
            ),
            ticket.position < route_of(old(self).all_triggers@, *event).len() && resets(*event)
                ==> final(self).counts_cleared(
                route_of(old(self).all_triggers@, *event),
                ticket.position as int,
                step,
            ),
            ticket.position >= route_of(old(self).all_triggers@, *event).len() ==> *final(self)
                == *old(self) && step.outcomes@.len() == 0 && step.ticket.is_none(),
    {
        let broadcast: bool = match event {
            Event::QuestStateChanged { .. } => true,
            Event::Damage { .. } => true,
            _ => false,
        };
        let reset: bool = match event {
            Event::QuestStateChanged { new, .. } => *new == QUEST_LEFT,
            _ => false,
        };
        let resume: Option<(usize, i32)> = Some((ticket.check, damage));
        if broadcast {
            let route: Vec<usize> = everyone(self.all_triggers.len());
            if ticket.position >= route.len() {
                return Step { outcomes: Vec::new(), ticket: None };
            }
            let step = deliver(
                &mut self.all_triggers,
                &self.shared_ctx,
                event,
                &route,
                ticket.position,
                resume,
                reset,
                now,
            );
            proof {
                self.lemma_wf_kept(old(self));
                if reset {
                    self.lemma_reset_clears(
                        old(self),
                        *event,
                        route@,
                        ticket.position as int,
                        resume,
                        now,
                        step,
                    );
                }
            }
            step
        } else {
            let kind: usize = kind_index(event.event_type());
            proof {
                vstd::std_specs::vec::axiom_spec_len(&self.all_triggers);
                lemma_positions_of(self.all_triggers@, event.event_type_spec());
            }
            if ticket.position >= self.triggers[kind].len() {
                return Step { outcomes: Vec::new(), ticket: None };
            }
            let step = deliver(
                &mut self.all_triggers,
                &self.shared_ctx,
                event,
                &self.triggers[kind],
                ticket.position,
                resume,
                reset,
                now,
            );
            proof {
                self.lemma_wf_kept(old(self));
            }
            step
        }
    }

    /// Hands `event` to the triggers that it concerns, at the time that
    /// the clock shows.
    pub fn dispatch(&mut self, event: &Event) -> (step: Step)
        requires
            old(self).wf(),
        ensures
            final(self).wf(),
            final(self).same_rules(old(self)),
            exists|now: i64| #[trigger]
                final(self).handed(
                    old(self),
                    *event,
                    route_of(old(self).all_triggers@, *event),
                    0,
                    None,
                    resets(*event),
                    now,
                    step,
                ),
            resets(*event) ==> final(self).counts_cleared(
                route_of(old(self).all_triggers@, *event),
                0,
                step,
            ),
            resets(*event) && step.ticket.is_none() ==> final(self).all_counts_cleared(),
    {
        let now: i64 = now_millis();
        self.dispatch_at(event, now)
    }

    /// Takes up the evaluation of `event` where it stopped for damage, at
    /// the time that the clock shows.
    pub fn resume(&mut self, event: &Event, ticket: Ticket, damage: i32) -> (step: Step)
        requires
            old(self).wf(),
        ensures
            final(self).wf(),
            final(self).same_rules(old(self)),
            ticket.position < route_of(old(self).all_triggers@, *event).len() ==> exists|now: i64| #[trigger]
                final(self).handed(
                    old(self),
                    *event,
                    route_of(old(self).all_triggers@, *event),
                    ticket.position as int,
                    Some((ticket.check, damage)),
                    resets(*event),
                    now,
                    step,
                ),
            ticket.position < route_of(old(self).all_triggers@, *event).len() && resets(*event)
                ==> final(self).counts_cleared(
                route_of(old(self).all_triggers@, *event),
                ticket.position as int,
                step,
            ),
            ticket.position >= route_of(old(self).all_triggers@, *event).len() ==> *final(self)
                == *old(self) && step.outcomes@.len() == 0 && step.ticket.is_none(),
    {
        let now: i64 = now_millis();
        self.resume_at(event, ticket, damage, now)
    }

    /// Triggers that stay the same rules keep the index right.
    proof fn lemma_wf_kept(&self, before: &TriggerManager)
        requires
            before.wf(),
            self.triggers == before.triggers,
            self.all_triggers@.len() == before.all_triggers@.len(),
            forall|t: int|
                0 <= t < before.all_triggers@.len() ==> (#[trigger] before.all_triggers@[t]).same_rule(
                    &self.all_triggers@[t],
                ),
        ensures
            self.wf(),
    {
        assert forall|kind: EventType| #[trigger]
            self.triggers@[kind_index_spec(kind) as int]@ == positions_of(
                self.all_triggers@,
                kind,
            ) by {
            assert forall|t: int| 0 <= t < before.all_triggers@.len() implies (#[trigger] self.all_triggers@[t]).event_type
                == before.all_triggers@[t].event_type by {
                assert(before.all_triggers@[t].same_rule(&self.all_triggers@[t]));
            }
            lemma_positions_of_same_rules(before.all_triggers@, self.all_triggers@, kind);
        }
    }

    /// A trigger that was reset after its evaluation has every count at zero.
    proof fn lemma_reset_clears(
        &self,
        before: &TriggerManager,
        event: Event,
        route: Seq<usize>,
        from: int,
        resume: Option<(usize, i32)>,
        now: i64,
        step: Step,
    )
        requires
            delivered(
                before.all_triggers@,
                self.all_triggers@,
                before.shared_ctx,
                event,
                route,
                from,
                resume,
                true,
                now,
                step,
            ),
        ensures
            self.counts_cleared(route, from, step),
    {
        assert forall|k: int, i: int|
            0 <= k < step.outcomes@.len() && 0 <= i < self.all_triggers@[route[from
                + k] as int].progress().counts.len() implies #[trigger] self.all_triggers@[route[from
                + k] as int].progress().counts[i] == 0 by {
            assert(before.all_triggers@[route[from + k] as int].completed(
                &self.all_triggers@[route[from + k] as int],
                event,
                before.shared_ctx,
                if k == 0 {
                    resume
                } else {
                    None
                },
                true,
                now,
                step.outcomes@[k],
            ));
        }
    }
}

/// The kind of event at a place in the index.
fn kind_at(k: usize) -> (kind: EventType)
    requires
        k < EVENT_KINDS,
    ensures
        kind_index_spec(kind) == k,
{
    if k == 0 {
        EventType::LoadTriggers
    } else if k == 1 {
        EventType::UpdateContext
    } else if k == 2 {
        EventType::LongswordLevelChanged
    } else if k == 3 {
        EventType::WeaponTypeChanged
    } else if k == 4 {
        EventType::QuestStateChanged
    } else if k == 5 {
        EventType::FsmChanged
    } else if k == 6 {
        EventType::UseItem
    } else if k == 7 {
        EventType::InsectGlaive
    } else if k == 8 {
        EventType::ChargeBlade
    } else {
        EventType::Damage
    }
}

/// The positions of the triggers that are subscribed to `kind`.
fn subscribers(triggers: &Vec<Trigger>, kind: EventType) -> (r: Vec<usize>)
    ensures
        r@ == positions_of(triggers@, kind),
{
    let mut r: Vec<usize> = Vec::new();
    let mut i: usize = 0;
    while i < triggers.len()
        invariant
            i <= triggers.len(),
            r@ == positions_of(triggers@.take(i as int), kind),
        decreases triggers.len() - i,
    {
        proof {
            assert(triggers@.take(i + 1).drop_last() =~= triggers@.take(i as int));
        }
        if triggers[i].event_type == kind {
            r.push(i);
        }
        i += 1;
    }
    assert(triggers@.take(i as int) =~= triggers@);
    r
}

/// Whether two lists of positions are the same.
fn same_positions(a: &Vec<usize>, b: &Vec<usize>) -> (r: bool)
    ensures
        r == (a@ == b@),
{
    if a.len() != b.len() {
        return false;
    }
    let mut i: usize = 0;
    while i < a.len()
        invariant
            i <= a.len(),
            a.len() == b.len(),
            forall|j: int| 0 <= j < i ==> a@[j] == b@[j],
        decreases a.len() - i,
    {
        if a[i] != b[i] {
            return false;
        }
        i += 1;
    }
    assert(a@ =~= b@);
    true
}

/// The positions of all of `n` triggers.
fn everyone(n: usize) -> (route: Vec<usize>)
    ensures
        route@ == all_positions(n as nat),
        ascending(route@, n as nat),
{
    let mut route: Vec<usize> = Vec::new();
    let mut i: usize = 0;
    while i < n
        invariant
            i <= n,
            route@.len() == i,
            forall|j: int| 0 <= j < i ==> route@[j] == j,
        decreases n - i,
    {
        route.push(i);
        i += 1;
    }
    route
}

} // verus!
