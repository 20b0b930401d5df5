use multitask_reminder::scheduler::Scheduler;
use multitask_reminder::scheduler::SchedulerCommand;
use multitask_reminder::scheduler::WaitPlan;
use multitask_reminder::scheduler::plan_wait;
use multitask_reminder::scheduler::IDLE_SLEEP_MS;
use multitask_reminder::scheduler::MAX_SLEEP_MS;
use multitask_reminder::storage::get_enabled_reminders;
use multitask_reminder::storage::reminders_conform;
use multitask_reminder::storage::Reminder;

fn reminder(id: i64, interval_minutes: i32, last_triggered: Option<String>) -> Reminder {
    Reminder {
        id,
        name: format!("reminder {}", id),
        message: None,
        interval_minutes,
        enabled: true,
        active_start_time: None,
        active_end_time: None,
        active_days: None,
        sound: String::from("chime"),
        last_triggered,
        created_at: String::from("2024-01-01T00:00:00Z"),
    }
}

fn rfc3339(millis: i64) -> String {
    chrono::DateTime::from_timestamp_millis(millis)
        .unwrap()
        .to_rfc3339()
}

// 2001-09-09T01:46:40Z, a convenient round instant.
const T: i64 = 1_000_000_000_000;

#[test]
fn selecting_picks_the_soonest_due_reminder() {
    // One reminder due at T+10s, one at T+5s: the T+5s one wins.
    let r1 = reminder(1, 1, Some(rfc3339(T + 10_000 - 60_000)));
    let r2 = reminder(2, 1, Some(rfc3339(T + 5_000 - 60_000)));
    let reminders = vec![r1, r2];
    let mut s = Scheduler::new();
    s.handle_load(&reminders, T);
    assert_eq!(s.select_target(&reminders, 0, 0), Some((2, T + 5_000)));
}

#[test]
fn selecting_breaks_ties_towards_the_lowest_id() {
    let r1 = reminder(9, 1, Some(rfc3339(T)));
    let r2 = reminder(4, 1, Some(rfc3339(T)));
    let reminders = vec![r1, r2];
    let mut s = Scheduler::new();
    s.handle_load(&reminders, T);
    assert_eq!(s.select_target(&reminders, 0, 0), Some((4, T + 60_000)));
}

#[test]
fn selecting_skips_reminders_outside_their_window() {
    // The sooner reminder only fires 09:00-18:00; at 20:00 the later one wins.
    let mut r1 = reminder(1, 1, Some(rfc3339(T + 5_000 - 60_000)));
    r1.active_start_time = Some(String::from("09:00"));
    r1.active_end_time = Some(String::from("18:00"));
    let r2 = reminder(2, 1, Some(rfc3339(T + 10_000 - 60_000)));
    let reminders = vec![r1, r2];
    let mut s = Scheduler::new();
    s.handle_load(&reminders, T);
    let evening = 20 * 3600;
    assert_eq!(s.select_target(&reminders, 0, evening), Some((2, T + 10_000)));
    let noon = 12 * 3600;
    assert_eq!(s.select_target(&reminders, 0, noon), Some((1, T + 5_000)));
}

#[test]
fn selecting_finds_nothing_when_no_reminder_is_eligible() {
    let mut r1 = reminder(1, 1, None);
    r1.active_days = Some(vec![0]);
    let reminders = vec![r1];
    let mut s = Scheduler::new();
    s.handle_load(&reminders, T);
    assert_eq!(s.select_target(&reminders, 3, 0), None);
    assert_eq!(s.select_target(&Vec::new(), 0, 0), None);
}

#[test]
fn waiting_fires_a_due_target_at_once() {
    assert_eq!(plan_wait(Some((1, T)), T), WaitPlan::FireNow { id: 1 });
    assert_eq!(plan_wait(Some((1, T - 1)), T), WaitPlan::FireNow { id: 1 });
}

#[test]
fn waiting_sleeps_towards_the_target_capped_at_a_minute() {
    assert_eq!(plan_wait(Some((1, T + 5_000)), T), WaitPlan::Sleep { ms: 5_000 });
    assert_eq!(
        plan_wait(Some((1, T + 10 * 60_000)), T),
        WaitPlan::Sleep { ms: MAX_SLEEP_MS }
    );
    assert_eq!(plan_wait(None, T), WaitPlan::Sleep { ms: IDLE_SLEEP_MS });
}

#[test]
fn refresh_clears_the_table_and_the_next_load_recomputes() {
    let early = reminder(1, 1, Some(rfc3339(T + 5_000 - 60_000)));
    let reminders = vec![early];
    let mut s = Scheduler::new();
    s.handle_load(&reminders, T);
    assert_eq!(s.next_trigger_of(1), Some(T + 5_000));

    // The user edits the reminder; the store now holds a longer interval.
    let edited = reminder(1, 10, None);
    let reminders = vec![edited];

    // Without a refresh the cached instant would survive the next load.
    s.handle_load(&reminders, T + 1_000);
    assert_eq!(s.next_trigger_of(1), Some(T + 5_000));

    // With a refresh the table is emptied and fully recomputed.
    s.handle_signal(SchedulerCommand::Refresh);
    assert_eq!(s.next_trigger_of(1), None);
    assert!(!s.is_stopped());
    s.handle_load(&reminders, T + 2_000);
    assert_eq!(s.next_trigger_of(1), Some(T + 2_000 + 10 * 60_000));
}

#[test]
fn stop_is_terminal() {
    let reminders = vec![reminder(1, 1, None)];
    let mut s = Scheduler::new();
    s.handle_load(&reminders, T);
    s.handle_signal(SchedulerCommand::Stop);
    assert!(s.is_stopped());
    // A stopped scheduler never changes again: a late refresh neither
    // revives it nor touches its table.
    s.handle_signal(SchedulerCommand::Refresh);
    assert!(s.is_stopped());
    assert_eq!(s.next_trigger_of(1), Some(T + 60_000));
    s.handle_signal(SchedulerCommand::Stop);
    assert!(s.is_stopped());
}

#[test]
fn disabling_a_reminder_prunes_it_within_one_load() {
    let r1 = reminder(1, 1, None);
    let mut r2 = reminder(2, 1, None);
    let mut s = Scheduler::new();
    s.handle_load(&get_enabled_reminders(vec![r1.clone(), r2.clone()]), T);
    assert!(s.next_trigger_of(2).is_some());

    // The toggle lands in the store; the refresh wakes the loop, whose next
    // load sees only the still-enabled reminders.
    r2.enabled = false;
    let enabled = get_enabled_reminders(vec![r1.clone(), r2.clone()]);
    assert_eq!(enabled.len(), 1);
    s.handle_signal(SchedulerCommand::Refresh);
    s.handle_load(&enabled, T + 1_000);
    assert_eq!(s.next_trigger_of(2), None);
    assert!(s.next_trigger_of(1).is_some());
}

#[test]
fn enabled_filter_keeps_order_and_drops_the_disabled() {
    let mut r1 = reminder(1, 1, None);
    r1.enabled = false;
    let r2 = reminder(2, 1, None);
    let r3 = reminder(3, 1, None);
    let enabled = get_enabled_reminders(vec![r1, r2, r3]);
    let ids: Vec<i64> = enabled.iter().map(|r| r.id).collect();
    assert_eq!(ids, vec![2, 3]);
    assert!(get_enabled_reminders(Vec::new()).is_empty());
}

#[test]
fn conformance_check_catches_out_of_model_records() {
    let good = vec![reminder(1, 1, None), reminder(2, 30, None)];
    assert!(reminders_conform(&good));
    assert!(reminders_conform(&Vec::new()));

    let duplicate = vec![reminder(1, 1, None), reminder(1, 30, None)];
    assert!(!reminders_conform(&duplicate));

    let nonpositive = vec![reminder(1, 0, None)];
    assert!(!reminders_conform(&nonpositive));
    let negative = vec![reminder(1, -5, None)];
    assert!(!reminders_conform(&negative));
}

#[test]
fn one_minute_reminder_fires_once_and_reschedules() {
    // A reminder with a one-minute interval and no window, never fired,
    // created at T: the loop sleeps a full minute, fires at T+60s, records
    // the fire, and schedules the next occurrence at T+120s.
    let r = reminder(1, 1, None);
    let reminders = vec![r.clone()];
    let mut s = Scheduler::new();

    let plan = s.plan_cycle(&reminders, T, 0, 0);
    assert_eq!(plan, WaitPlan::Sleep { ms: 60_000 });

    // The sleep elapses undisturbed; the next cycle finds the target due.
    let now = T + 60_000;
    let plan = s.plan_cycle(&reminders, now, 0, 0);
    assert_eq!(plan, WaitPlan::FireNow { id: 1 });

    // Firing: the sink is notified, the store records last_triggered = now,
    // and the reminder's next occurrence is cached from the record the loop
    // holds, exactly one interval ahead.
    s.handle_fired(&r, now);
    assert_eq!(s.next_trigger_of(1), Some(T + 120_000));

    // The store's updated record yields the same instant on the next load.
    let fired = reminder(1, 1, Some(rfc3339(now)));
    let reloaded = vec![fired];
    let plan = s.plan_cycle(&reloaded, now + 100, 0, 0);
    assert_eq!(plan, WaitPlan::Sleep { ms: 59_900 });
    assert_eq!(s.next_trigger_of(1), Some(T + 120_000));
}
