//! The control channel: asking the running loop to refresh or stop.
//!
//! CRUD callers never touch the scheduler's state directly.  After any
//! create, update, delete, toggle, dismiss or snooze they request a refresh,
//! and process shutdown requests a stop, both through a handle to the
//! bounded channel whose receiving end the loop races its sleeps against.
//! Both requests are best-effort and fire-and-forget: a full queue already
//! guarantees a pending wake-up, so dropping the duplicate is safe.

use vstd::prelude::*;

use crate::scheduler::SchedulerCommand;

verus! {

/// How many signals the control channel buffers.
pub const CONTROL_CHANNEL_CAPACITY: usize = 32;

#[verifier::external_type_specification]
#[verifier::external_body]
#[verifier::reject_recursive_types(T)]
pub struct ExSender<T>(tokio::sync::mpsc::Sender<T>);

/// Relies on `tokio::sync::mpsc::Sender::try_send`: a non-blocking enqueue
/// that delivers the signal to the receiving end unless the queue is full or
/// the receiver is gone, in which case the signal is dropped.
#[verifier::external_body]
fn try_send_command(tx: &tokio::sync::mpsc::Sender<SchedulerCommand>, cmd: SchedulerCommand) {
    let _ = tx.try_send(cmd);
}

/// The sending end of the control channel, given to every CRUD caller that
/// must signal the loop.
pub struct SchedulerHandle {
    tx: tokio::sync::mpsc::Sender<SchedulerCommand>,
}

impl SchedulerHandle {
    /// Wraps the sending end of the channel whose receiver the loop owns.
    pub fn new(tx: tokio::sync::mpsc::Sender<SchedulerCommand>) -> SchedulerHandle {
        SchedulerHandle { tx }
    }
}

/// Asks the loop to re-evaluate with fresh data; idempotent and
/// fire-and-forget.
pub fn refresh_scheduler(handle: &SchedulerHandle) {
    try_send_command(&handle.tx, SchedulerCommand::Refresh);
}

/// Asks the loop to shut down for good; fire-and-forget.
pub fn stop_scheduler(handle: &SchedulerHandle) {
    try_send_command(&handle.tx, SchedulerCommand::Stop);
}

} // verus!
