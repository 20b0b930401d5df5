//! The active-window filter: may a reminder fire right now?
//!
//! A reminder passes when the local weekday is among its `active_days` (or
//! none are set) and the local time of day lies inside its `[start, end]`
//! window (or no window is set).  A window whose start exceeds its end spans
//! midnight: `22:00`..`06:00` admits `23:30` and `05:59` but not `12:00`.
//! A bound that fails to parse skips the time check entirely, so malformed
//! data never silently disables a reminder.

use vstd::prelude::*;

use crate::storage::Reminder;

verus! {

/// Seconds in one day; times of day lie strictly below it.
pub const SECONDS_PER_DAY: u32 = 86_400;

/// The hour and minute an `HH:MM` string denotes, or `None` when the string
/// is malformed.
pub uninterp spec fn hhmm_of(s: Seq<char>) -> Option<(u32, u32)>;

/// Relies on `chrono::NaiveTime::parse_from_str` with format `%H:%M` and on
/// `Timelike::hour` and `Timelike::minute`: the parse depends on the
/// characters alone, the hour lies in 0..=23 and the minute in 0..=59.
#[verifier::external_body]
fn parse_hhmm(s: &str) -> (r: Option<(u32, u32)>)
    ensures
        r == hhmm_of(s@),
        r matches Some(p) ==> p.0 < 24 && p.1 < 60,
{
    match chrono::NaiveTime::parse_from_str(s, "%H:%M") {
        Ok(t) => Some((chrono::Timelike::hour(&t), chrono::Timelike::minute(&t))),
        Err(_) => None,
    }
}

/// The second of the day at which an hour-minute bound begins.
pub open spec fn bound_second(p: (u32, u32)) -> int {
    p.0 * 3600 + p.1 * 60
}

/// Whether the second of the day `now_sec` lies inside the window from
/// `start_sec` to `end_sec`, both inclusive.  A start past its end spans
/// midnight: the window is then everything not strictly between the end and
/// the start.
pub open spec fn in_window(start_sec: int, end_sec: int, now_sec: int) -> bool {
    if start_sec <= end_sec {
        start_sec <= now_sec <= end_sec
    } else {
        !(now_sec < start_sec && now_sec > end_sec)
    }
}

/// Whether `weekday` (0 = Monday .. 6 = Sunday) is one the reminder may
/// fire on.
pub open spec fn day_allowed(r: Reminder, weekday: u8) -> bool {
    match r.active_days {
        Some(days) => days@.contains(weekday),
        None => true,
    }
}

/// Whether the time of day `now_sec` is one the reminder may fire at.  The
/// check applies only when both bounds are present and parse; a missing or
/// malformed bound leaves the reminder always time-eligible.
pub open spec fn time_allowed(r: Reminder, now_sec: u32) -> bool {
    match (r.active_start_time, r.active_end_time) {
        (Some(ss), Some(es)) => match (hhmm_of(ss@), hhmm_of(es@)) {
            (Some(sp), Some(ep)) => in_window(bound_second(sp), bound_second(ep), now_sec as int),
            _ => true,
        },
        _ => true,
    }
}

/// Whether the reminder may fire at local weekday `weekday` and local time
/// of day `now_sec`: both the day check and the time check pass.
pub open spec fn active_spec(r: Reminder, weekday: u8, now_sec: u32) -> bool {
    day_allowed(r, weekday) && time_allowed(r, now_sec)
}

/// The time-of-day check on already-parsed bounds.
pub fn window_allows(start: (u32, u32), end: (u32, u32), now_sec: u32) -> (r: bool)
    requires
        start.0 < 24,
        start.1 < 60,
        end.0 < 24,
        end.1 < 60,
    ensures
        r == in_window(bound_second(start), bound_second(end), now_sec as int),
{
    let start_sec: u32 = start.0 * 3600 + start.1 * 60;
    let end_sec: u32 = end.0 * 3600 + end.1 * 60;
    if start_sec <= end_sec {
        start_sec <= now_sec && now_sec <= end_sec
    } else {
        !(now_sec < start_sec && now_sec > end_sec)
    }
}

/// Whether `days` contains `weekday`.
fn days_contain(days: &Vec<u8>, weekday: u8) -> (r: bool)
    ensures
        r == days@.contains(weekday),
{
    let mut i: usize = 0;
    while i < days.len()
        invariant
            i <= days@.len(),
            forall|j: int| 0 <= j < i ==> days@[j] != weekday,
        decreases days@.len() - i,
    {
        if days[i] == weekday {
            return true;
        }
        i = i + 1;
    }
    false
}

/// The active-window filter: whether the reminder may fire at local weekday
/// `weekday` (0 = Monday .. 6 = Sunday) and local time of day `now_sec`
/// (seconds since local midnight).
pub fn is_within_active_window(r: &Reminder, weekday: u8, now_sec: u32) -> (b: bool)
    ensures
        b == active_spec(*r, weekday, now_sec),
{
    if let Some(days) = &r.active_days {
        if !days_contain(days, weekday) {
            return false;
        }
    }
    if let (Some(ss), Some(es)) = (&r.active_start_time, &r.active_end_time) {
        if let (Some(sp), Some(ep)) = (parse_hhmm(ss.as_str()), parse_hhmm(es.as_str())) {
            return window_allows(sp, ep, now_sec);
        }
    }
    true
}

/// A reminder with no active days and no time window set is active at every
/// weekday and every time of day.
pub proof fn lemma_unrestricted_always_active(r: Reminder, weekday: u8, now_sec: u32)
    requires
        r.active_days is None,
        r.active_start_time is None,
        r.active_end_time is None,
    ensures
        active_spec(r, weekday, now_sec),
{
}

} // verus!
