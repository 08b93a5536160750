//! A single-actor named-timer manager.
//!
//! A [`TimerManager`] owns a table of named deadlines and resolves it
//! against incoming commands and periodic heartbeat scans; a
//! [`TimerHandle`] is the client proxy that enqueues commands and consumes
//! expiration events over a pair of bounded channels. Time is measured in
//! plain `u64` units on a monotonic scale chosen by the caller; an async
//! shell that drives the loop converts clock readings to those units.

mod model;
mod table;
mod chan;
mod tm;
mod laws;

pub use laws::{
    lemma_cancel_all_clears, lemma_cancel_removes_pending, lemma_heartbeat_bounded_detection,
    lemma_replace_cycle, lemma_scan_at_most_once, lemma_set_replaces, lemma_set_then_detect,
    lemma_trace_absent_stays_silent, lemma_trace_at_most_once,
};
pub use chan::{TryRecvFailure, TrySendFailure, MAX_CHANNEL_CAPACITY};
pub use model::{
    action_applied, action_sets, cmd_applied, fire_count, fired, live, sat_add, ManagerAction,
};
pub use tm::{LoopEvent, TimerCommand, TimerEvent, TimerHandle, TimerManager};
