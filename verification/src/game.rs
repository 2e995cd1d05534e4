//! What is taken from the observed process: the reading of each value with
//! its default, the commands of the user, and the damage that was dealt.

use vstd::prelude::*;
use crate::clock::now_millis;
use crate::game_context::{ChargeBlade, ChatCommand, Fsm, Gauge, InsectGlaive, SpecializedTool};
use crate::text::{from_chars, starts_with, to_chars};

verus! {

/// The quest phase that was read, or 0.
pub open spec fn quest_state_or_default(reading: Option<i32>) -> i32 {
    match reading {
        Some(v) => v,
        None => 0,
    }
}

/// The level of the long sword that was read, or 99.
pub open spec fn longsword_level_or_default(reading: Option<i32>) -> i32 {
    match reading {
        Some(v) => v,
        None => 99,
    }
}

/// The weapon kind that was read, or 0.
pub open spec fn weapon_type_or_default(reading: Option<i32>) -> i32 {
    match reading {
        Some(v) => v,
        None => 0,
    }
}

/// The machine state that was read; a half that could not be read is 0.
pub open spec fn fsm_or_default(id: Option<i32>, target: Option<i32>) -> Fsm {
    Fsm {
        target: match target {
            Some(v) => v,
            None => 0,
        },
        id: match id {
            Some(v) => v,
            None => 0,
        },
    }
}

/// The item that was read as used, or -1.
pub open spec fn use_item_id_or_default(reading: Option<i32>) -> i32 {
    match reading {
        Some(v) => v,
        None => -1i32,
    }
}

/// The timers of the insect glaive that were read, or all zero.
pub open spec fn insect_glaive_or_default(reading: Option<InsectGlaive>) -> InsectGlaive {
    match reading {
        Some(v) => v,
        None => InsectGlaive {
            attack_timer: Gauge { whole: 0, positive: false, raw: 0 },
            speed_timer: Gauge { whole: 0, positive: false, raw: 0 },
            defense_timer: Gauge { whole: 0, positive: false, raw: 0 },
        },
    }
}

/// The meters of the charge blade that were read, or all zero.
pub open spec fn charge_blade_or_default(reading: Option<ChargeBlade>) -> ChargeBlade {
    match reading {
        Some(v) => v,
        None => ChargeBlade {
            sword_power: Gauge { whole: 0, positive: false, raw: 0 },
            sword_charge_timer: Gauge { whole: 0, positive: false, raw: 0 },
            shield_charge_timer: Gauge { whole: 0, positive: false, raw: 0 },
            phials: 0,
            max_phials: 0,
            power_axe_mode: 0,
            power_axe_timer: Gauge { whole: 0, positive: false, raw: 0 },
            power_axe_total: 0,
        },
    }
}

/// The command in a message of the user: what follows the prefix `!mas `,
/// read as a command. A message without the prefix holds none.
pub open spec fn chat_command_of(msg: Seq<char>) -> Option<ChatCommand> {
    let prefix = "!mas "@;
    if msg.len() >= prefix.len() && msg.subrange(0, prefix.len() as int) == prefix {
        ChatCommand::from_str_spec(msg.subrange(prefix.len() as int, msg.len() as int))
    } else {
        None
    }
}

/// Reads the command in a message of the user.
pub fn get_chat_command(msg: &str) -> (r: Option<ChatCommand>)
    ensures
        r == chat_command_of(msg@),
{
    let chars: Vec<char> = to_chars(msg);
    let prefix: Vec<char> = to_chars("!mas ");
    if starts_with(&chars, &prefix) {
        let mut rest: Vec<char> = Vec::new();
        let mut i: usize = prefix.len();
        while i < chars.len()
            invariant
                prefix.len() <= i <= chars.len(),
                rest@ == chars@.subrange(prefix.len() as int, i as int),
            decreases chars.len() - i,
        {
            rest.push(chars[i]);
            i += 1;
        }
        let word: String = from_chars(&rest);
        ChatCommand::from_str(word.as_str())
    } else {
        None
    }
}

/// The quest phase that was read, or 0.
pub fn get_quest_state(reading: Option<i32>) -> (r: i32)
    ensures
        r == quest_state_or_default(reading),
{
    match reading {
        Some(v) => v,
        None => 0,
    }
}

/// The level of the long sword that was read, or 99.
pub fn get_longsword_level(reading: Option<i32>) -> (r: i32)
    ensures
        r == longsword_level_or_default(reading),
{
    match reading {
        Some(v) => v,
        None => 99,
    }
}

/// The weapon kind that was read, or 0.
pub fn get_weapon_type(reading: Option<i32>) -> (r: i32)
    ensures
        r == weapon_type_or_default(reading),
{
    match reading {
        Some(v) => v,
        None => 0,
    }
}

/// The machine state that was read; a half that could not be read is 0.
pub fn get_fsm(id: Option<i32>, target: Option<i32>) -> (r: Fsm)
    ensures
        r == fsm_or_default(id, target),
{
    let id: i32 = match id {
        Some(v) => v,
        None => 0,
    };
    let target: i32 = match target {
        Some(v) => v,
        None => 0,
    };
    Fsm { id, target }
}

/// The item that was read as used, or -1.
pub fn get_use_item_id(reading: Option<i32>) -> (r: i32)
    ensures
        r == use_item_id_or_default(reading),
{
    match reading {
        Some(v) => v,
        None => -1,
    }
}

/// The timers of the insect glaive that were read, or all zero.
pub fn get_insect_glaive_data(reading: Option<InsectGlaive>) -> (r: InsectGlaive)
    ensures
        r == insect_glaive_or_default(reading),
{
    match reading {
        Some(v) => v,
        None => InsectGlaive::default(),
    }
}

/// The meters of the charge blade that were read, or all zero.
pub fn get_charge_blade_data(reading: Option<ChargeBlade>) -> (r: ChargeBlade)
    ensures
        r == charge_blade_or_default(reading),
{
    match reading {
        Some(v) => v,
        None => ChargeBlade::default(),
    }
}

/// The specialized tool in use. None is observed yet.
pub fn get_specialized_tool() -> (r: Option<SpecializedTool>)
    ensures
        r.is_none(),
{
    None
}

/// How long a hit is remembered, in milliseconds: an hour.
pub const RETENTION: i64 = 3_600_000;

/// One hit: the damage, the machine state in which it was dealt, and when.
#[derive(Clone, Copy, Debug, PartialEq, Eq, Structural)]
pub struct DamageData {
    pub damage: i32,
    pub fsm: Fsm,
    /// In milliseconds since the start of 1970.
    pub time: i64,
}

impl DamageData {
    /// A hit dealt at the time that the clock shows.
    pub fn new(damage: i32, fsm: &Fsm) -> (r: Self)
        ensures
            r.damage == damage,
            r.fsm == *fsm,
    {
        DamageData { damage, fsm: *fsm, time: now_millis() }
    }
}

/// The sum of the damage of those hits that `wanted` holds of.
pub open spec fn sum_where(records: Seq<DamageData>, wanted: spec_fn(DamageData) -> bool) -> int
    decreases records.len(),
{
    if records.len() == 0 {
        0
    } else {
        sum_where(records.drop_last(), wanted) + if wanted(records.last()) {
            records.last().damage as int
        } else {
            0
        }
    }
}

/// The hits that `wanted` holds of, in their order.
pub open spec fn those(records: Seq<DamageData>, wanted: spec_fn(DamageData) -> bool) -> Seq<
    DamageData,
>
    decreases records.len(),
{
    if records.len() == 0 {
        Seq::empty()
    } else if wanted(records.last()) {
        those(records.drop_last(), wanted).push(records.last())
    } else {
        those(records.drop_last(), wanted)
    }
}

/// Holds of the hits dealt in the state `fsm`.
pub open spec fn dealt_in(fsm: Fsm) -> spec_fn(DamageData) -> bool {
    |d: DamageData| d.fsm == fsm
}

/// Holds of the hits dealt in another state than `fsm`.
pub open spec fn dealt_outside(fsm: Fsm) -> spec_fn(DamageData) -> bool {
    |d: DamageData| d.fsm != fsm
}

/// Holds of the hits dealt from the time `start` to the time `end`, both included.
pub open spec fn dealt_within(start: i64, end: i64) -> spec_fn(DamageData) -> bool {
    |d: DamageData| start <= d.time <= end
}

/// Whether a hit is too old to be remembered at the time `now`.
pub open spec fn expired(d: DamageData, now: i64) -> bool {
    d.time + RETENTION < now
}

/// Holds of the hits that are still remembered at the time `now`.
pub open spec fn fresh_at(now: i64) -> spec_fn(DamageData) -> bool {
    |d: DamageData| !expired(d, now)
}

/// The damage dealt in the state `fsm`.
pub open spec fn damage_in_state(records: Seq<DamageData>, fsm: Fsm) -> int {
    sum_where(records, dealt_in(fsm))
}

/// The damage dealt from the time `start` to the time `end`, both included.
pub open spec fn damage_within(records: Seq<DamageData>, start: i64, end: i64) -> int {
    sum_where(records, dealt_within(start, end))
}

/// The hits dealt in another state than `fsm`.
pub open spec fn outside_state(records: Seq<DamageData>, fsm: Fsm) -> Seq<DamageData> {
    those(records, dealt_outside(fsm))
}

/// The hits that are still remembered at the time `now`.
pub open spec fn remembered(records: Seq<DamageData>, now: i64) -> Seq<DamageData> {
    those(records, fresh_at(now))
}

/// Whether no hit stands behind a later one.
pub open spec fn in_order(records: Seq<DamageData>) -> bool {
    forall|i: int, j: int| 0 <= i <= j < records.len() ==> records[i].time <= records[j].time
}

/// `n` where it is a damage that can be held, else the nearest that can.
pub open spec fn clamped(n: int) -> i32 {
    if n > i32::MAX {
        i32::MAX
    } else if n < i32::MIN {
        i32::MIN
    } else {
        n as i32
    }
}

/// The end of the time in which damage is collected, `timeout`
/// milliseconds from `start`. A negative time is no time, and the end is
/// never later than the latest time there is.
pub open spec fn window_end(start: i64, timeout: i32) -> i64 {
    if timeout <= 0 {
        start
    } else if start + timeout > i64::MAX {
        i64::MAX
    } else {
        (start + timeout) as i64
    }
}

/// The sum over two runs of hits is the sum of the two sums.
proof fn lemma_sum_where_adds(
    a: Seq<DamageData>,
    b: Seq<DamageData>,
    wanted: spec_fn(DamageData) -> bool,
)
    ensures
        sum_where(a + b, wanted) == sum_where(a, wanted) + sum_where(b, wanted),
    decreases b.len(),
{
    if b.len() == 0 {
        assert(a + b =~= a);
    } else {
        assert((a + b).drop_last() =~= a + b.drop_last());
        lemma_sum_where_adds(a, b.drop_last(), wanted);
    }
}

/// Hits of which none is wanted sum to nothing.
proof fn lemma_sum_where_none(records: Seq<DamageData>, wanted: spec_fn(DamageData) -> bool)
    requires
        forall|i: int| 0 <= i < records.len() ==> !wanted(#[trigger] records[i]),
    ensures
        sum_where(records, wanted) == 0,
    decreases records.len(),
{
    if records.len() > 0 {
        assert forall|i: int| 0 <= i < records.drop_last().len() implies !wanted(
            #[trigger] records.drop_last()[i],
        ) by {
            assert(records.drop_last()[i] == records[i]);
        }
        lemma_sum_where_none(records.drop_last(), wanted);
    }
}

/// What is chosen from hits in order is in order, and each of it is wanted.
proof fn lemma_those(records: Seq<DamageData>, wanted: spec_fn(DamageData) -> bool)
    ensures
        those(records, wanted).len() <= records.len(),
        forall|i: int|
            0 <= i < those(records, wanted).len() ==> wanted(#[trigger] those(records, wanted)[i])
                && records.contains(those(records, wanted)[i]),
        in_order(records) ==> in_order(those(records, wanted)),
    decreases records.len(),
{
    if records.len() > 0 {
        let shorter = records.drop_last();
        let chosen = those(shorter, wanted);
        let all = those(records, wanted);
        lemma_those(shorter, wanted);
        assert forall|i: int| 0 <= i < all.len() implies wanted(#[trigger] all[i])
            && records.contains(all[i]) by {
            if i < chosen.len() {
                let at = choose|at: int| 0 <= at < shorter.len() && shorter[at] == chosen[i];
                assert(records[at] == chosen[i]);
            } else {
                assert(records[records.len() - 1] == all[i]);
            }
        }
        if in_order(records) {
            assert forall|i: int, j: int| 0 <= i <= j < shorter.len() implies shorter[i].time
                <= shorter[j].time by {
                assert(shorter[i] == records[i] && shorter[j] == records[j]);
            }
            assert forall|i: int, j: int| 0 <= i <= j < all.len() implies all[i].time
                <= all[j].time by {
                if j >= chosen.len() && i < chosen.len() {
                    let at = choose|at: int| 0 <= at < shorter.len() && shorter[at] == chosen[i];
                    assert(records[at].time <= records[records.len() - 1].time);
                }
            }
        }
    }
}

/// The damage that was dealt: for each machine state the hits dealt in it
/// since it was last entered, and all hits in the order of their time, for
/// as long as they are remembered.
#[derive(Debug)]
pub struct DamageCollector {
    /// The hits by state. Those of a state are dropped when the machine
    /// enters it.
    pub records: Vec<DamageData>,
    /// All hits, none behind a later one.
    pub simple_collector: Vec<DamageData>,
    /// The state that the machine is in.
    pub now_fsm: Fsm,
}

impl DamageCollector {
    /// The hits stand in the order of their time.
    pub open spec fn wf(&self) -> bool {
        in_order(self.simple_collector@)
    }

    /// Looks whether the hits stand in the order of their time.
    pub fn is_wf(&self) -> (r: bool)
        ensures
            r == self.wf(),
    {
        let n: usize = self.simple_collector.len();
        if n == 0 {
            return true;
        }
        let mut i: usize = 1;
        while i < n
            invariant
                1 <= i <= n,
                n == self.simple_collector@.len(),
                forall|a: int, b: int|
                    0 <= a <= b < i ==> self.simple_collector@[a].time
                        <= self.simple_collector@[b].time,
            decreases n - i,
        {
            if self.simple_collector[i - 1].time > self.simple_collector[i].time {
                return false;
            }
            i += 1;
        }
        true
    }

    /// A collector that holds no hit, the machine being in its first state.
    pub fn new() -> (r: Self)
        ensures
            r.wf(),
            r.records@.len() == 0,
            r.simple_collector@.len() == 0,
            r.now_fsm == (Fsm { target: 0, id: 0 }),
    {
        DamageCollector {
            records: Vec::new(),
            simple_collector: Vec::new(),
            now_fsm: Fsm::default(),
        }
    }

    /// The time that a hit at the time `now` is stamped with: `now`, but
    /// not earlier than the hit before it, so that the hits stay in order
    /// where the clock was set back.
    pub open spec fn stamp(&self, now: i64) -> i64 {
        if self.simple_collector@.len() > 0 && self.simple_collector@.last().time > now {
            self.simple_collector@.last().time
        } else {
            now
        }
    }

    /// Takes in a hit dealt in state `fsm` at the time `now`.
    pub fn on_damage_at(&mut self, damage: i32, fsm: Fsm, now: i64)
        requires
            old(self).wf(),
        ensures
            final(self).wf(),
            final(self).records@ == old(self).records@.push(
                DamageData { damage, fsm, time: old(self).stamp(now) },
            ),
            final(self).simple_collector@ == old(self).simple_collector@.push(
                DamageData { damage, fsm, time: old(self).stamp(now) },
            ),
            final(self).now_fsm == old(self).now_fsm,
    {
        let n: usize = self.simple_collector.len();
        let time: i64 = if n > 0 && self.simple_collector[n - 1].time > now {
            self.simple_collector[n - 1].time
        } else {
            now
        };
        let data = DamageData { damage, fsm, time };
        self.records.push(data);
        self.simple_collector.push(data);
    }

    /// Takes in a hit dealt in state `fsm` at the time that the clock shows.
    pub fn on_damage(&mut self, damage: i32, fsm: Fsm)
        requires
            old(self).wf(),
        ensures
            final(self).wf(),
            final(self).now_fsm == old(self).now_fsm,
            exists|now: i64|
                final(self).records@ == old(self).records@.push(
                    DamageData { damage, fsm, time: #[trigger] old(self).stamp(now) },
                ) && final(self).simple_collector@ == old(self).simple_collector@.push(
                    DamageData { damage, fsm, time: old(self).stamp(now) },
                ),
    {
        let now: i64 = now_millis();
        self.on_damage_at(damage, fsm, now);
    }

    /// The hits of `records` that were dealt in another state than `fsm`.
    fn drop_state(records: &Vec<DamageData>, fsm: Fsm) -> (kept: Vec<DamageData>)
        ensures
            kept@ == outside_state(records@, fsm),
    {
        let mut kept: Vec<DamageData> = Vec::new();
        let mut i: usize = 0;
        while i < records.len()
            invariant
                i <= records.len(),
                kept@ == those(records@.take(i as int), dealt_outside(fsm)),
            decreases records.len() - i,
        {
            let d: DamageData = records[i];
            proof {
                assert(records@.take(i + 1).drop_last() =~= records@.take(i as int));
            }
            if d.fsm != fsm {
                kept.push(d);
            }
            i += 1;
        }
        assert(records@.take(i as int) =~= records@);
        kept
    }

    /// The hits of `records` that are still remembered at the time `now`.
    fn drop_expired(records: &Vec<DamageData>, now: i64) -> (kept: Vec<DamageData>)
        ensures
            kept@ == remembered(records@, now),
    {
        let mut kept: Vec<DamageData> = Vec::new();
        let mut i: usize = 0;
        while i < records.len()
            invariant
                i <= records.len(),
                kept@ == those(records@.take(i as int), fresh_at(now)),
            decreases records.len() - i,
        {
            let d: DamageData = records[i];
            proof {
                assert(records@.take(i + 1).drop_last() =~= records@.take(i as int));
            }
            if (d.time as i128) + (RETENTION as i128) >= (now as i128) {
                kept.push(d);
            }
            i += 1;
        }
        assert(records@.take(i as int) =~= records@);
        kept
    }

    /// The machine has entered the state `fsm_after` at the time `now`:
    /// the hits that were dealt in that state before are dropped, and so
    /// is every hit that is too old to be remembered.
    pub fn on_fsm_changed_at(&mut self, fsm_after: &Fsm, now: i64)
        requires
            old(self).wf(),
        ensures
            final(self).wf(),
            final(self).records@ == remembered(outside_state(old(self).records@, *fsm_after), now),
            final(self).simple_collector@ == remembered(old(self).simple_collector@, now),
            final(self).now_fsm == *fsm_after,
    {
        let outside: Vec<DamageData> = Self::drop_state(&self.records, *fsm_after);
        self.records = Self::drop_expired(&outside, now);
        self.now_fsm = *fsm_after;
        self.simple_collector = Self::drop_expired(&self.simple_collector, now);
        proof {
            lemma_those(old(self).simple_collector@, fresh_at(now));
        }
    }

    /// The machine has entered the state `fsm_after` at the time that the
    /// clock shows.
    pub fn on_fsm_changed(&mut self, fsm_after: &Fsm)
        requires
            old(self).wf(),
        ensures
            final(self).wf(),
            final(self).now_fsm == *fsm_after,
            exists|now: i64|
                final(self).records@ == #[trigger] remembered(
                    outside_state(old(self).records@, *fsm_after),
                    now,
                ) && final(self).simple_collector@ == remembered(old(self).simple_collector@, now),
    {
        let now: i64 = now_millis();
        self.on_fsm_changed_at(fsm_after, now);
    }

    /// Drops every hit that is too old to be remembered at the time `now`.
    pub fn clear_expired_data_at(&mut self, now: i64)
        requires
            old(self).wf(),
        ensures
            final(self).wf(),
            final(self).records@ == remembered(old(self).records@, now),
            final(self).simple_collector@ == remembered(old(self).simple_collector@, now),
            final(self).now_fsm == old(self).now_fsm,
    {
        self.records = Self::drop_expired(&self.records, now);
        self.simple_collector = Self::drop_expired(&self.simple_collector, now);
        proof {
            lemma_those(old(self).simple_collector@, fresh_at(now));
        }
    }

    /// Drops every hit that is too old to be remembered at the time that
    /// the clock shows.
    pub fn clear_expired_data(&mut self)
        requires
            old(self).wf(),
        ensures
            final(self).wf(),
            final(self).now_fsm == old(self).now_fsm,
            exists|now: i64|
                final(self).records@ == #[trigger] remembered(old(self).records@, now)
                    && final(self).simple_collector@ == remembered(
                    old(self).simple_collector@,
                    now,
                ),
    {
        let now: i64 = now_millis();
        self.clear_expired_data_at(now);
    }

    /// The damage dealt in the state `fsm` since the machine last entered
    /// it, as far as it is remembered. A sum that is no damage that can be
    /// held is given as the nearest that can.
    pub fn collect_one(&self, fsm: &Fsm) -> (r: i32)
        ensures
            r == clamped(damage_in_state(self.records@, *fsm)),
    {
        let ghost wanted = dealt_in(*fsm);
        let mut sum: i128 = 0;
        let mut i: usize = 0;
        while i < self.records.len()
            invariant
                i <= self.records.len(),
                wanted == dealt_in(*fsm),
                sum == sum_where(self.records@.take(i as int), wanted),
                -(i * 0x8000_0000) <= sum <= i * 0x8000_0000,
            decreases self.records.len() - i,
        {
            proof {
                assert(self.records@.take(i + 1).drop_last() =~= self.records@.take(i as int));
            }
            if self.records[i].fsm == *fsm {
                sum = sum + (self.records[i].damage as i128);
            }
            i += 1;
        }
        assert(self.records@.take(i as int) =~= self.records@);
        clamp(sum)
    }

    /// The position of the first hit that is not earlier than `start`, or
    /// the number of hits if all are earlier.
    fn first_from(&self, start: i64) -> (at: usize)
        requires
            self.wf(),
        ensures
            at <= self.simple_collector@.len(),
            forall|i: int| 0 <= i < at ==> self.simple_collector@[i].time < start,
            forall|i: int|
                at <= i < self.simple_collector@.len() ==> self.simple_collector@[i].time >= start,
    {
        let mut low: usize = 0;
        let mut high: usize = self.simple_collector.len();
        while low < high
            invariant
                low <= high <= self.simple_collector@.len(),
                self.wf(),
                forall|i: int| 0 <= i < low ==> self.simple_collector@[i].time < start,
                forall|i: int|
                    high <= i < self.simple_collector@.len() ==> self.simple_collector@[i].time
                        >= start,
            decreases high - low,
        {
            let mid: usize = low + (high - low) / 2;
            if self.simple_collector[mid].time < start {
                low = mid + 1;
            } else {
                high = mid;
            }
        }
        low
    }

    /// The damage dealt from the time `start_time` to the time `end_time`,
    /// both included, as far as it is remembered. A sum that is no damage
    /// that can be held is given as the nearest that can.
    pub fn collect_duration(&self, start_time: i64, end_time: i64) -> (r: i32)
        requires
            self.wf(),
        ensures
            r == clamped(damage_within(self.simple_collector@, start_time, end_time)),
    {
        let ghost wanted = dealt_within(start_time, end_time);
        let ghost all = self.simple_collector@;
        let start_idx: usize = self.first_from(start_time);
        let n: usize = self.simple_collector.len();
        let mut sum: i128 = 0;
        let mut i: usize = start_idx;
        while i < n && self.simple_collector[i].time <= end_time
            invariant
                start_idx <= i <= n,
                n == all.len(),
                all == self.simple_collector@,
                wanted == dealt_within(start_time, end_time),
                forall|j: int| start_idx <= j < n ==> all[j].time >= start_time,
                sum == sum_where(all.subrange(start_idx as int, i as int), wanted),
                -((i - start_idx) * 0x8000_0000) <= sum <= (i - start_idx) * 0x8000_0000,
            decreases n - i,
        {
            proof {
                assert(all.subrange(start_idx as int, i + 1).drop_last() =~= all.subrange(
                    start_idx as int,
                    i as int,
                ));
            }
            sum = sum + (self.simple_collector[i].damage as i128);
            i += 1;
        }
        proof {
            let before = all.subrange(0, start_idx as int);
            let middle = all.subrange(start_idx as int, i as int);
            let after = all.subrange(i as int, n as int);
            assert forall|j: int| 0 <= j < after.len() implies !wanted(#[trigger] after[j]) by {
                assert(all[i as int].time <= all[i + j].time);
            }
            lemma_sum_where_none(before, wanted);
            lemma_sum_where_none(after, wanted);
            lemma_sum_where_adds(before, middle, wanted);
            lemma_sum_where_adds(before + middle, after, wanted);
            assert(before + middle + after =~= all);
        }
        clamp(sum)
    }

    /// What waiting for the machine to leave the state `fsm` has come to.
    /// Once the machine is in another state, or the time is over, the
    /// damage dealt in `fsm` is the result; until then there is none yet.
    pub fn collect_fsm(&self, fsm: &Fsm, timed_out: bool) -> (r: Option<i32>)
        ensures
            r == if timed_out || self.now_fsm != *fsm {
                Some(clamped(damage_in_state(self.records@, *fsm)))
            } else {
                None
            },
    {
        if timed_out || self.now_fsm != *fsm {
            Some(self.collect_one(fsm))
        } else {
            None
        }
    }

    /// The damage dealt in the `timeout` milliseconds from the time
    /// `start`, for the caller to ask for once that time is over.
    pub fn collect_time(&self, start: i64, timeout: i32) -> (r: i32)
        requires
            self.wf(),
        ensures
            r == clamped(damage_within(self.simple_collector@, start, window_end(start, timeout))),
    {
        let end: i64 = if timeout <= 0 {
            start
        } else if (start as i128) + (timeout as i128) > (i64::MAX as i128) {
            i64::MAX
        } else {
            start + (timeout as i64)
        };
        self.collect_duration(start, end)
    }
}

/// The nearest damage that can be held.
fn clamp(sum: i128) -> (r: i32)
    ensures
        r == clamped(sum as int),
{
    if sum > (i32::MAX as i128) {
        i32::MAX
    } else if sum < (i32::MIN as i128) {
        i32::MIN
    } else {
        sum as i32
    }
}

} // verus!
