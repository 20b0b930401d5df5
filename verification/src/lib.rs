//! Core of a personal reminder scheduler.
//!
//! Users define recurring reminders (an interval, an optional active time
//! window and set of active days, a sound) that a long-lived loop fires when
//! due.  This crate holds the verified heart of that system: the trigger
//! clock that maps a reminder's persisted state and the current time to its
//! next fire instant, the active-window filter, and the scheduling state
//! machine that merges loaded reminders, selects the earliest eligible
//! target, plans each wait, and reacts to refresh and stop signals.  Storage
//! and presentation are external collaborators reached by the unverified
//! binary around this library.

pub mod control;
pub mod scheduler;
pub mod storage;
pub mod trigger;
pub mod window;
