//! The trigger clock: when does a reminder fire next?
//!
//! `calculate_next_trigger` anchors the next occurrence to the persisted
//! `last_triggered` instant when that instant parses and the occurrence is
//! still ahead; otherwise (never fired, malformed timestamp, or one or more
//! intervals already missed) it coalesces everything into a single
//! occurrence one full interval from now.  Missed occurrences are never
//! replayed.  Instants are UTC milliseconds since the Unix epoch.

use vstd::prelude::*;

use crate::storage::Reminder;
use crate::storage::valid_reminder;

verus! {

/// Milliseconds in one minute.
pub const MS_PER_MINUTE: i64 = 60_000;

/// Instants this scheduler does arithmetic on stay below this bound
/// (comfortably past year 200_000), so adding an interval to one never
/// overflows an `i64`.
pub const MAX_INSTANT_MS: i64 = 9_000_000_000_000_000;

/// The instant, in UTC milliseconds since the Unix epoch, that an ISO-8601
/// (RFC 3339) string denotes, or `None` when the string is malformed.
pub uninterp spec fn rfc3339_millis(s: Seq<char>) -> Option<i64>;

/// Relies on `chrono::DateTime::parse_from_rfc3339` and
/// `DateTime::timestamp_millis`: the parse depends on the characters alone,
/// and chrono's dates span years -262143..=262142, so a parsed instant stays
/// within `MAX_INSTANT_MS` of zero.
#[verifier::external_body]
fn parse_rfc3339_millis(s: &str) -> (r: Option<i64>)
    ensures
        r == rfc3339_millis(s@),
        r matches Some(t) ==> -MAX_INSTANT_MS <= t <= MAX_INSTANT_MS,
{
    match chrono::DateTime::parse_from_rfc3339(s) {
        Ok(dt) => Some(dt.timestamp_millis()),
        Err(_) => None,
    }
}

/// The instant the reminder's `last_triggered` string denotes, if it is
/// present and well formed.
pub open spec fn parsed_last_triggered(r: Reminder) -> Option<i64> {
    match r.last_triggered {
        Some(s) => rfc3339_millis(s@),
        None => None,
    }
}

/// The next fire instant given an already-parsed `last_triggered`: the last
/// fire plus one interval when that is still ahead of `now`, else one
/// interval from `now`.
pub open spec fn next_from_last(last: Option<i64>, interval_minutes: int, now: int) -> int {
    match last {
        Some(t) => if t + interval_minutes * MS_PER_MINUTE > now {
            t + interval_minutes * MS_PER_MINUTE
        } else {
            now + interval_minutes * MS_PER_MINUTE
        },
        None => now + interval_minutes * MS_PER_MINUTE,
    }
}

/// The next fire instant of a reminder at time `now`.
pub open spec fn next_trigger_spec(r: Reminder, now: int) -> int {
    next_from_last(parsed_last_triggered(r), r.interval_minutes as int, now)
}

/// The trigger clock on an already-parsed `last_triggered` instant.
pub fn next_trigger_from_last(last: Option<i64>, interval_minutes: i32, now: i64) -> (next: i64)
    requires
        1 <= interval_minutes,
        0 <= now <= MAX_INSTANT_MS,
        last matches Some(t) ==> -MAX_INSTANT_MS <= t <= MAX_INSTANT_MS,
    ensures
        next == next_from_last(last, interval_minutes as int, now as int),
        now < next,
{
    let interval_ms: i64 = (interval_minutes as i64) * MS_PER_MINUTE;
    match last {
        Some(t) => {
            if t > now - interval_ms {
                t + interval_ms
            } else {
                now + interval_ms
            }
        },
        None => now + interval_ms,
    }
}

/// The trigger clock: the reminder's next fire instant at time `now`.
/// A malformed `last_triggered` degrades to the never-fired branch; the
/// function never fails.
pub fn calculate_next_trigger(r: &Reminder, now: i64) -> (next: i64)
    requires
        valid_reminder(*r),
        0 <= now <= MAX_INSTANT_MS,
    ensures
        next == next_trigger_spec(*r, now as int),
        now < next,
{
    let last = match &r.last_triggered {
        Some(s) => parse_rfc3339_millis(s.as_str()),
        None => None,
    };
    next_trigger_from_last(last, r.interval_minutes, now)
}

/// A reminder that never fired is due exactly one interval from now.
pub proof fn lemma_never_triggered_due_in_one_interval(r: Reminder, now: int)
    requires
        r.last_triggered is None,
    ensures
        next_trigger_spec(r, now) == now + r.interval_minutes * MS_PER_MINUTE,
{
}

/// A stable cadence: while the occurrence after the last real fire is still
/// ahead, it is the next one, anchored to the last fire and not to `now`;
/// once it has passed, every missed occurrence coalesces into a single one,
/// exactly one interval from `now` and never less than one full interval
/// after the last fire.
pub proof fn lemma_cadence_and_coalescing(r: Reminder, now: int, t: i64)
    requires
        r.last_triggered matches Some(s) && rfc3339_millis(s@) == Some(t),
    ensures
        t + r.interval_minutes * MS_PER_MINUTE > now ==> next_trigger_spec(r, now) == t
            + r.interval_minutes * MS_PER_MINUTE,
        t + r.interval_minutes * MS_PER_MINUTE <= now ==> next_trigger_spec(r, now) == now
            + r.interval_minutes * MS_PER_MINUTE,
        0 < r.interval_minutes ==> next_trigger_spec(r, now) >= t + r.interval_minutes
            * MS_PER_MINUTE,
{
}

} // verus!
