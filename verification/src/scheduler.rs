//! The scheduling state machine.
//!
//! One long-lived worker runs a cycle of phases: load the enabled reminders,
//! merge them into the `next_triggers` table, select the earliest eligible
//! target, then wait — either until the target is due or, with no target,
//! for a fixed idle spell — racing the wait against the control channel.
//! A due target fires and is rescheduled; a refresh signal clears the table
//! so the next load recomputes everything; a stop signal is terminal.
//!
//! The unverified binary owns the suspension points (the cancellable sleep,
//! the channel, the store and the presentation sink) and drives these
//! verified transitions with the values it read.

use std::collections::HashMap;

use vstd::prelude::*;

use crate::storage::Reminder;
use crate::storage::all_valid;
use crate::storage::distinct_ids;
use crate::storage::valid_reminder;
use crate::trigger::MAX_INSTANT_MS;
use crate::trigger::calculate_next_trigger;
use crate::trigger::next_trigger_spec;
use crate::window::active_spec;
use crate::window::is_within_active_window;

verus! {

broadcast use vstd::std_specs::hash::group_hash_axioms;

/// How long a failed load of the reminders backs off before the retry.
pub const RETRY_BACKOFF_MS: u64 = 5_000;

/// How long the loop sleeps when no reminder is eligible.
pub const IDLE_SLEEP_MS: u64 = 10_000;

/// The longest sleep towards a due instant, bounding how stale the
/// day-and-time eligibility decision can grow without a refresh.
pub const MAX_SLEEP_MS: u64 = 60_000;

/// The pause after a fire, so a second already-due reminder does not spin
/// the loop tight.
pub const POST_FIRE_DELAY_MS: u64 = 100;

/// A signal to the scheduling loop: re-evaluate with fresh data, or shut
/// down for good.
#[derive(Debug, Clone, Copy, PartialEq, Eq, Structural)]
pub enum SchedulerCommand {
    Refresh,
    Stop,
}

/// What the loop should do next after selection: fire the due target at
/// once, or sleep this many milliseconds (racing the control channel).
#[derive(Debug, Clone, Copy, PartialEq, Eq, Structural)]
pub enum WaitPlan {
    FireNow { id: i64 },
    Sleep { ms: u64 },
}

/// The scheduler's in-memory state: the next fire instant cached for each
/// enabled reminder, and whether a stop signal ended the loop.  The table is
/// disposable — it is re-derivable from the store plus the current time, and
/// a refresh discards it wholesale.
pub struct Scheduler {
    pub next_triggers: HashMap<i64, i64>,
    pub stopped: bool,
}

/// How a load transforms the trigger table: afterwards the table holds
/// exactly the ids of the loaded reminders, each keeping its cached instant
/// when it had one and getting a freshly computed one when it did not.
/// Stale ids are gone.
pub open spec fn load_relation(pre: Map<i64, i64>, post: Map<i64, i64>, rs: Seq<Reminder>, now: int) -> bool {
    &&& forall|i: int|
        0 <= i < rs.len() ==> {
            &&& #[trigger] post.contains_key(rs[i].id)
            &&& post[rs[i].id] == if pre.contains_key(rs[i].id) {
                pre[rs[i].id]
            } else {
                next_trigger_spec(rs[i], now) as i64
            }
        }
    &&& forall|k: i64| #[trigger] post.contains_key(k) ==> exists|i: int| 0 <= i < rs.len() && rs[i].id == k
}

/// What the selection phase may return: a `target` is sound when it is a
/// loaded, currently active reminder with a cached instant no later than any
/// other such reminder's — ties broken towards the lowest id — and `None` is
/// sound only when no loaded reminder is both active and cached.
pub open spec fn selection_post(
    table: Map<i64, i64>,
    rs: Seq<Reminder>,
    weekday: u8,
    now_sec: u32,
    target: Option<(i64, i64)>,
) -> bool {
    match target {
        Some(t) => {
            &&& table.contains_key(t.0)
            &&& table[t.0] == t.1
            &&& exists|i: int|
                0 <= i < rs.len() && #[trigger] rs[i].id == t.0 && active_spec(
                    rs[i],
                    weekday,
                    now_sec,
                )
            &&& forall|i: int|
                0 <= i < rs.len() && active_spec(#[trigger] rs[i], weekday, now_sec)
                    && table.contains_key(rs[i].id) ==> t.1 < table[rs[i].id] || (t.1
                    == table[rs[i].id] && t.0 <= rs[i].id)
        },
        None => forall|i: int|
            0 <= i < rs.len() ==> !(active_spec(#[trigger] rs[i], weekday, now_sec)
                && table.contains_key(rs[i].id)),
    }
}

/// What the waiting phase does with a selected target: one already due fires
/// at once; one still ahead is slept towards, at most `MAX_SLEEP_MS` at a
/// time; no target means an idle sleep.
pub open spec fn wait_plan_of(target: Option<(i64, i64)>, now: int) -> WaitPlan {
    match target {
        Some(t) => if t.1 <= now {
            WaitPlan::FireNow { id: t.0 }
        } else {
            WaitPlan::Sleep {
                ms: if t.1 - now < MAX_SLEEP_MS { (t.1 - now) as u64 } else { MAX_SLEEP_MS as u64 },
            }
        },
        None => WaitPlan::Sleep { ms: IDLE_SLEEP_MS },
    }
}

/// How a control signal transforms the state: a stopped scheduler never
/// changes again; a refresh empties the table; a stop keeps the table and
/// ends the loop.
pub open spec fn signal_spec(table: Map<i64, i64>, stopped: bool, cmd: SchedulerCommand) -> (Map<
    i64,
    i64,
>, bool) {
    if stopped {
        (table, true)
    } else {
        match cmd {
            SchedulerCommand::Refresh => (Map::empty(), false),
            SchedulerCommand::Stop => (table, true),
        }
    }
}

impl Scheduler {
    /// A scheduler that has seen nothing yet.
    pub fn new() -> (s: Scheduler)
        ensures
            s.next_triggers@ == Map::<i64, i64>::empty(),
            !s.stopped,
    {
        Scheduler { next_triggers: HashMap::new(), stopped: false }
    }

    /// The loading phase: merge the freshly loaded enabled reminders into
    /// the table, inserting a computed instant for every newly seen id and
    /// pruning every id no longer loaded.
    pub fn handle_load(&mut self, reminders: &Vec<Reminder>, now: i64)
        requires
            !old(self).stopped,
            distinct_ids(reminders@),
            all_valid(reminders@),
            0 <= now <= MAX_INSTANT_MS,
        ensures
            load_relation(old(self).next_triggers@, final(self).next_triggers@, reminders@, now as int),
            final(self).stopped == old(self).stopped,
    {
        let mut fresh: HashMap<i64, i64> = HashMap::new();
        let mut i: usize = 0;
        while i < reminders.len()
            invariant
                i <= reminders@.len(),
                !self.stopped,
                distinct_ids(reminders@),
                all_valid(reminders@),
                0 <= now <= MAX_INSTANT_MS,
                forall|j: int|
                    0 <= j < i ==> {
                        &&& #[trigger] fresh@.contains_key(reminders@[j].id)
                        &&& fresh@[reminders@[j].id] == if self.next_triggers@.contains_key(
                            reminders@[j].id,
                        ) {
                            self.next_triggers@[reminders@[j].id]
                        } else {
                            next_trigger_spec(reminders@[j], now as int) as i64
                        }
                    },
                forall|k: i64|
                    #[trigger] fresh@.contains_key(k) ==> exists|j: int|
                        0 <= j < i && reminders@[j].id == k,
            decreases reminders@.len() - i,
        {
            let r = &reminders[i];
            let value: i64 = match self.next_triggers.get(&r.id) {
                Some(v) => *v,
                None => calculate_next_trigger(r, now),
            };
            fresh.insert(r.id, value);
            i = i + 1;
        }
        self.next_triggers = fresh;
    }

    /// The selection phase: among the loaded reminders that pass the
    /// active-window filter and have a cached instant, the one due
    /// soonest — ties broken towards the lowest id, so the choice is
    /// deterministic.  `None` when no reminder is eligible.
    pub fn select_target(
        &self,
        reminders: &Vec<Reminder>,
        weekday: u8,
        now_sec: u32,
    ) -> (target: Option<(i64, i64)>)
        ensures
            selection_post(self.next_triggers@, reminders@, weekday, now_sec, target),
    {
        let mut target: Option<(i64, i64)> = None;
        let mut i: usize = 0;
        while i < reminders.len()
            invariant
                i <= reminders@.len(),
                match target {
                    Some(t) => {
                        &&& self.next_triggers@.contains_key(t.0)
                        &&& self.next_triggers@[t.0] == t.1
                        &&& exists|j: int|
                            0 <= j < i && #[trigger] reminders@[j].id == t.0 && active_spec(
                                reminders@[j],
                                weekday,
                                now_sec,
                            )
                        &&& forall|j: int|
                            0 <= j < i && active_spec(#[trigger] reminders@[j], weekday, now_sec)
                                && self.next_triggers@.contains_key(reminders@[j].id) ==> t.1
                                < self.next_triggers@[reminders@[j].id] || (t.1
                                == self.next_triggers@[reminders@[j].id] && t.0 <= reminders@[j].id)
                    },
                    None => forall|j: int|
                        0 <= j < i ==> !(active_spec(#[trigger] reminders@[j], weekday, now_sec)
                            && self.next_triggers@.contains_key(reminders@[j].id)),
                },
            decreases reminders@.len() - i,
        {
            let r = &reminders[i];
            if is_within_active_window(r, weekday, now_sec) {
                if let Some(v) = self.next_triggers.get(&r.id) {
                    target = match target {
                        Some(t) => {
                            if *v < t.1 || (*v == t.1 && r.id < t.0) {
                                Some((r.id, *v))
                            } else {
                                Some(t)
                            }
                        },
                        None => Some((r.id, *v)),
                    };
                }
            }
            i = i + 1;
        }
        target
    }

    /// The firing phase's bookkeeping: after the sink was notified and the
    /// store recorded the fire, cache the reminder's next occurrence.
    pub fn handle_fired(&mut self, r: &Reminder, now: i64)
        requires
            !old(self).stopped,
            valid_reminder(*r),
            0 <= now <= MAX_INSTANT_MS,
        ensures
            final(self).next_triggers@ == old(self).next_triggers@.insert(
                r.id,
                next_trigger_spec(*r, now as int) as i64,
            ),
            final(self).stopped == old(self).stopped,
    {
        let next = calculate_next_trigger(r, now);
        self.next_triggers.insert(r.id, next);
    }

    /// A control signal: a refresh discards the whole table so the next
    /// load recomputes it; a stop is terminal and nothing changes a stopped
    /// scheduler again.
    pub fn handle_signal(&mut self, cmd: SchedulerCommand)
        ensures
            ({
                let (table, stopped) = signal_spec(old(self).next_triggers@, old(self).stopped, cmd);
                final(self).next_triggers@ == table && final(self).stopped == stopped
            }),
    {
        if self.stopped {
            return ;
        }
        match cmd {
            SchedulerCommand::Refresh => {
                self.next_triggers.clear();
            },
            SchedulerCommand::Stop => {
                self.stopped = true;
            },
        }
    }

    /// Whether a stop signal ended the loop.
    pub fn is_stopped(&self) -> (b: bool)
        ensures
            b == self.stopped,
    {
        self.stopped
    }

    /// The cached next fire instant of one reminder, if any.
    pub fn next_trigger_of(&self, id: i64) -> (t: Option<i64>)
        ensures
            match t {
                Some(v) => self.next_triggers@.contains_key(id) && self.next_triggers@[id] == v,
                None => !self.next_triggers@.contains_key(id),
            },
    {
        match self.next_triggers.get(&id) {
            Some(v) => Some(*v),
            None => None,
        }
    }

    /// One full decision cycle while the loop is live: merge the loaded
    /// reminders into the table, select the earliest eligible target, and
    /// plan the wait that the caller races against the control channel.
    pub fn plan_cycle(
        &mut self,
        reminders: &Vec<Reminder>,
        now: i64,
        weekday: u8,
        now_sec: u32,
    ) -> (plan: WaitPlan)
        requires
            !old(self).stopped,
            distinct_ids(reminders@),
            all_valid(reminders@),
            0 <= now <= MAX_INSTANT_MS,
        ensures
            load_relation(old(self).next_triggers@, final(self).next_triggers@, reminders@, now as int),
            final(self).stopped == old(self).stopped,
            exists|target: Option<(i64, i64)>|
                #[trigger] selection_post(
                    final(self).next_triggers@,
                    reminders@,
                    weekday,
                    now_sec,
                    target,
                ) && plan == wait_plan_of(target, now as int),
    {
        self.handle_load(reminders, now);
        let target = self.select_target(reminders, weekday, now_sec);
        plan_wait(target, now)
    }
}

/// The waiting phase: a selected target already due fires at once; one still
/// ahead is slept towards, at most `MAX_SLEEP_MS` at a time; with no target
/// the loop idles for `IDLE_SLEEP_MS`.
pub fn plan_wait(target: Option<(i64, i64)>, now: i64) -> (plan: WaitPlan)
    requires
        0 <= now,
    ensures
        plan == wait_plan_of(target, now as int),
{
    match target {
        Some((id, due)) => {
            if due <= now {
                WaitPlan::FireNow { id }
            } else {
                let gap: i64 = due - now;
                let capped: u64 = if gap < MAX_SLEEP_MS as i64 {
                    gap as u64
                } else {
                    MAX_SLEEP_MS
                };
                WaitPlan::Sleep { ms: capped }
            }
        },
        None => WaitPlan::Sleep { ms: IDLE_SLEEP_MS },
    }
}

/// A refresh signal during the wait forces a full recomputation: whatever
/// the table held, after the refresh and the next load every loaded
/// reminder's instant is freshly computed from the store's state and `now`.
pub proof fn lemma_refresh_forces_recompute(
    table: Map<i64, i64>,
    loaded: Map<i64, i64>,
    rs: Seq<Reminder>,
    now: int,
)
    requires
        load_relation(signal_spec(table, false, SchedulerCommand::Refresh).0, loaded, rs, now),
    ensures
        forall|i: int| 0 <= i < rs.len() ==> #[trigger] loaded.contains_key(rs[i].id),
        forall|i: int|
            0 <= i < rs.len() ==> #[trigger] loaded[rs[i].id] == next_trigger_spec(rs[i], now) as i64,
{
    let pre = signal_spec(table, false, SchedulerCommand::Refresh).0;
    assert forall|i: int| 0 <= i < rs.len() implies #[trigger] loaded[rs[i].id]
        == next_trigger_spec(rs[i], now) as i64 by {
        assert(loaded.contains_key(rs[i].id));
        assert(!pre.contains_key(rs[i].id));
    }
}

/// A stop signal is terminal: it stops the scheduler from any live state,
/// and no later signal changes a stopped scheduler.
pub proof fn lemma_stop_is_terminal(table: Map<i64, i64>, stopped: bool, cmd: SchedulerCommand)
    ensures
        signal_spec(table, stopped, SchedulerCommand::Stop).1,
        signal_spec(table, true, cmd) == (table, true),
{
}

/// A reminder disabled or deleted before a load — its id is no longer among
/// the loaded ones — has no entry in the table after that load.
pub proof fn lemma_stale_id_pruned(
    pre: Map<i64, i64>,
    post: Map<i64, i64>,
    rs: Seq<Reminder>,
    now: int,
    id: i64,
)
    requires
        load_relation(pre, post, rs, now),
        forall|i: int| 0 <= i < rs.len() ==> #[trigger] rs[i].id != id,
    ensures
        !post.contains_key(id),
{
}

} // verus!
