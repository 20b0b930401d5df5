//! Reminder records as the store persists them.
//!
//! The store itself (a database behind CRUD calls) is an external
//! collaborator; the scheduler consumes read-shared copies of these records
//! each cycle.  Timestamps travel as ISO-8601 strings and time-of-day bounds
//! as `HH:MM` strings, exactly as stored; the verified code parses them
//! through the trusted wrappers in `trigger` and `window`.

use vstd::prelude::*;

verus! {

/// A recurring reminder. `interval_minutes` is the period between
/// occurrences; `enabled` reminders are the only ones scheduled.
/// `active_start_time` and `active_end_time` are `HH:MM` bounds of the
/// daily window (present together or absent together), `active_days` the
/// weekdays (0 = Monday .. 6 = Sunday) on which the reminder may fire,
/// `last_triggered` the ISO-8601 instant of the most recent fire.
#[derive(Debug, Clone)]
pub struct Reminder {
    pub id: i64,
    pub name: String,
    pub message: Option<String>,
    pub interval_minutes: i32,
    pub enabled: bool,
    pub active_start_time: Option<String>,
    pub active_end_time: Option<String>,
    pub active_days: Option<Vec<u8>>,
    pub sound: String,
    pub last_triggered: Option<String>,
    pub created_at: String,
}

/// The fields a caller supplies to create a reminder; the store assigns
/// `id`, `created_at` and an empty `last_triggered`.
#[derive(Debug, Clone)]
pub struct CreateReminder {
    pub name: String,
    pub message: Option<String>,
    pub interval_minutes: i32,
    pub enabled: bool,
    pub active_start_time: Option<String>,
    pub active_end_time: Option<String>,
    pub active_days: Option<Vec<u8>>,
    pub sound: String,
}

/// A full replacement of a reminder's user-editable fields.
#[derive(Debug, Clone)]
pub struct UpdateReminder {
    pub id: i64,
    pub name: String,
    pub message: Option<String>,
    pub interval_minutes: i32,
    pub enabled: bool,
    pub active_start_time: Option<String>,
    pub active_end_time: Option<String>,
    pub active_days: Option<Vec<u8>>,
    pub sound: String,
}

/// A reminder the scheduler can do arithmetic on: the interval is positive.
pub open spec fn valid_reminder(r: Reminder) -> bool {
    1 <= r.interval_minutes
}

/// Whether the records carry pairwise distinct ids, as the store's primary
/// key promises.
pub open spec fn distinct_ids(rs: Seq<Reminder>) -> bool {
    forall|i: int, j: int| 0 <= i < j < rs.len() ==> rs[i].id != rs[j].id
}

/// Whether every record is one the scheduler can do arithmetic on.
pub open spec fn all_valid(rs: Seq<Reminder>) -> bool {
    forall|i: int| 0 <= i < rs.len() ==> valid_reminder(#[trigger] rs[i])
}

/// Checks that loaded records honour the data model — pairwise distinct ids
/// and positive intervals — which is what the scheduler asks of every load.
pub fn reminders_conform(rs: &Vec<Reminder>) -> (ok: bool)
    ensures
        ok == (distinct_ids(rs@) && all_valid(rs@)),
{
    let mut i: usize = 0;
    while i < rs.len()
        invariant
            i <= rs@.len(),
            forall|a: int, b: int| 0 <= a < b < i ==> rs@[a].id != rs@[b].id,
            forall|a: int| 0 <= a < i ==> valid_reminder(#[trigger] rs@[a]),
        decreases rs@.len() - i,
    {
        if rs[i].interval_minutes < 1 {
            return false;
        }
        let mut j: usize = 0;
        while j < i
            invariant
                j <= i < rs@.len(),
                forall|b: int| 0 <= b < j ==> rs@[b].id != rs@[i as int].id,
            decreases i - j,
        {
            if rs[j].id == rs[i].id {
                return false;
            }
            j = j + 1;
        }
        i = i + 1;
    }
    true
}

/// Keeps exactly the enabled reminders of `all`, in order.
pub fn get_enabled_reminders(all: Vec<Reminder>) -> (enabled: Vec<Reminder>)
    ensures
        enabled@ == all@.filter(|r: Reminder| r.enabled),
{
    let mut enabled: Vec<Reminder> = Vec::new();
    proof {
        assert(all@.take(0).filter(|r: Reminder| r.enabled) =~= enabled@) by {
            reveal(Seq::filter);
        }
    }
    for r in it: all.into_iter()
        invariant
            it.seq() == all@,
            enabled@ == all@.take(it.index() as int).filter(|r: Reminder| r.enabled),
    {
        proof {
            lemma_filter_take_step(all@, |r: Reminder| r.enabled, it.index() as int);
        }
        if r.enabled {
            enabled.push(r);
        }
    }
    proof {
        assert(all@.take(all@.len() as int) =~= all@);
    }
    enabled
}

/// One step of filtering: extending a prefix by one element extends its
/// filtered image by that element exactly when the predicate holds of it.
proof fn lemma_filter_take_step<A>(s: Seq<A>, pred: spec_fn(A) -> bool, i: int)
    requires
        0 <= i < s.len(),
    ensures
        s.take(i + 1).filter(pred) == if pred(s[i]) {
            s.take(i).filter(pred).push(s[i])
        } else {
            s.take(i).filter(pred)
        },
{
    reveal(Seq::filter);
    assert(s.take(i + 1).drop_last() =~= s.take(i));
    assert(s.take(i + 1).last() == s[i]);
    if pred(s[i]) {
        assert(s.take(i + 1).filter(pred) =~= s.take(i).filter(pred).push(s[i]));
    }
}

} // verus!
