//! The timer manager actor and its client handle.
//!
//! The manager owns the timer table, the receiving side of the command
//! channel and the sending side of the event channel; the handle owns the
//! complementary sides. Every table-changing decision of the manager's loop
//! is a verified function here; the async shell that multiplexes the four
//! wait sources only feeds those functions.

use vstd::prelude::*;
use crate::chan::{chan_try_recv, chan_try_send, TryRecvFailure, TrySendFailure, MAX_CHANNEL_CAPACITY};
use crate::model::{cmd_applied, live};
use crate::table::TimerTable;
use tokio::sync::mpsc::{Receiver, Sender};
use tokio_util::sync::CancellationToken;

verus! {

/// A command sent from a handle to its manager.
#[derive(Debug, Clone)]
pub enum TimerCommand {
    /// Insert or replace the timer called `name`, to elapse `duration` time
    /// units after the moment the manager dispatches the command.
    SetTimer { name: String, duration: u64 },
    /// Remove the timer called `name`; a no-op if no such timer is pending.
    CancelTimer { name: String },
    /// Remove every pending timer.
    CancelAllTimers,
    /// Stop the manager's loop after this command.
    Shutdown,
}

/// An event sent from a manager to its handle.
#[derive(Debug, Clone)]
pub enum TimerEvent {
    /// The timer called `name` reached its deadline and was removed.
    TimerExpired { name: String },
}

/// What one iteration of the manager's loop observed: whichever of its four
/// wait sources became ready first.
pub enum LoopEvent {
    /// A command arrived on the command channel.
    Command(TimerCommand),
    /// The heartbeat ticked: time for an expiry scan.
    Heartbeat,
    /// The external cancellation signal fired.
    CancelSignal,
    /// The command channel is closed and no sender remains.
    ChannelClosed,
}

/// The timer manager: owns the timer table and resolves it against commands
/// and heartbeat scans. Single run, driven by exactly one loop.
pub struct TimerManager {
    /// Instance name, for diagnostic attribution only.
    pub name: String,
    /// Receiving side of the command channel.
    pub command_rx: Receiver<TimerCommand>,
    /// The external cancellation signal; the manager only observes it.
    pub cancel_token: CancellationToken,
    /// How far apart two heartbeat scans are, in time units.
    pub heartbeat_interval: u64,
    /// Sending side of the event channel.
    event_tx: Sender<TimerEvent>,
    /// The timer table: timer name -> absolute deadline.
    timers: TimerTable,
}

/// The client proxy: enqueues commands and consumes expiration events; holds
/// no timer state of its own.
pub struct TimerHandle {
    /// Sending side of the command channel.
    pub command_tx: Sender<TimerCommand>,
    /// Receiving side of the event channel.
    pub event_rx: Receiver<TimerEvent>,
}

impl TimerManager {
    /// The abstract timer table: timer name -> absolute deadline.
    pub closed spec fn table(&self) -> Map<Seq<char>, u64> {
        self.timers@
    }

    /// The instance name the manager was built with.
    pub closed spec fn spec_name(&self) -> Seq<char> {
        self.name@
    }

    /// The heartbeat period the manager was built with.
    pub closed spec fn spec_heartbeat_interval(&self) -> u64 {
        self.heartbeat_interval
    }

    /// The cancellation signal the manager was built with.
    pub closed spec fn spec_cancel_token(&self) -> CancellationToken {
        self.cancel_token
    }

    /// The receiving end of the command channel the manager holds.
    pub closed spec fn spec_command_rx(&self) -> Receiver<TimerCommand> {
        self.command_rx
    }

    /// The sending end of the event channel the manager holds.
    pub closed spec fn spec_event_tx(&self) -> Sender<TimerEvent> {
        self.event_tx
    }

    /// Create a manager/handle pair bound by two freshly created bounded
    /// channels; the manager starts with an empty table. The buffer sizes
    /// must be positive and within the channel primitive's capacity limit.
    pub fn new(
        name: String,
        heartbeat_interval: u64,
        command_buffer_size: usize,
        event_buffer_size: usize,
        cancel_token: CancellationToken,
    ) -> (r: (TimerManager, TimerHandle))
        requires
            heartbeat_interval >= 1,
            command_buffer_size >= 1,
            command_buffer_size <= MAX_CHANNEL_CAPACITY,
            event_buffer_size >= 1,
            event_buffer_size <= MAX_CHANNEL_CAPACITY,
        ensures
            r.0.table() == Map::<Seq<char>, u64>::empty(),
            r.0.spec_name() == name@,
            r.0.spec_heartbeat_interval() == heartbeat_interval,
            r.0.spec_cancel_token() == cancel_token,
    {
        let (command_tx, command_rx) = tokio::sync::mpsc::channel(command_buffer_size);
        let (event_tx, event_rx) = tokio::sync::mpsc::channel(event_buffer_size);
        let manager = TimerManager {
            name,
            command_rx,
            cancel_token,
            heartbeat_interval,
            event_tx,
            timers: TimerTable::new(),
        };
        let handle = TimerHandle { command_tx, event_rx };
        (manager, handle)
    }

    /// Dispatch one command against the table, with `now` the time of
    /// dispatch; the result says whether the loop must stop, and it is true
    /// exactly for `Shutdown`. Total: no command is an error.
    pub fn handle_command(&mut self, command: TimerCommand, now: u64) -> (stop: bool)
        ensures
            final(self).table() == cmd_applied(old(self).table(), command, now),
            stop == (command is Shutdown),
            final(self).spec_name() == old(self).spec_name(),
            final(self).spec_heartbeat_interval() == old(self).spec_heartbeat_interval(),
            final(self).spec_cancel_token() == old(self).spec_cancel_token(),
            final(self).spec_command_rx() == old(self).spec_command_rx(),
            final(self).spec_event_tx() == old(self).spec_event_tx(),
    {
        match command {
            TimerCommand::SetTimer { name, duration } => {
                let deadline = if duration > u64::MAX - now {
                    u64::MAX
                } else {
                    now + duration
                };
                self.timers.set(name, deadline);
                false
            },
            TimerCommand::CancelTimer { name } => {
                self.timers.cancel(&name);
                false
            },
            TimerCommand::CancelAllTimers => {
                self.timers.clear();
                false
            },
            TimerCommand::Shutdown => true,
        }
    }

    /// Run one expiry scan at time `now`: remove every entry whose deadline
    /// has elapsed and try to emit a `TimerExpired` event for each, never
    /// waiting for channel space. An event that finds the channel full is
    /// dropped; a closed channel stops emission for the rest of the scan.
    /// Either way the expired entries are already removed, so delivery is
    /// at most once per setting.
    pub fn check_expired_timers(&mut self, now: u64)
        ensures
            final(self).table() == live(old(self).table(), now),
            final(self).spec_name() == old(self).spec_name(),
            final(self).spec_heartbeat_interval() == old(self).spec_heartbeat_interval(),
            final(self).spec_cancel_token() == old(self).spec_cancel_token(),
            final(self).spec_command_rx() == old(self).spec_command_rx(),
            final(self).spec_event_tx() == old(self).spec_event_tx(),
    {
        let expired = self.timers.drain_expired(now);
        let mut i: usize = 0;
        let mut closed = false;
        while i < expired.len()
            invariant
                i <= expired@.len(),
            decreases expired@.len() - i,
        {
            if !closed {
                let name = expired[i].clone();
                match chan_try_send(&self.event_tx, TimerEvent::TimerExpired { name }) {
                    Ok(_) => {},
                    Err(TrySendFailure::Full(_)) => {},
                    Err(TrySendFailure::Closed(_)) => {
                        closed = true;
                    },
                }
            }
            i += 1;
        }
    }

    /// Resolve one observed loop event against the table, with `cancelled`
    /// whether the external signal had already fired; the result says
    /// whether the loop stops. A command observed after cancellation is
    /// abandoned unprocessed, and cancellation or channel closure stops the
    /// loop with the table untouched.
    pub fn step(&mut self, event: LoopEvent, now: u64, cancelled: bool) -> (stop: bool)
        ensures
            match event {
                LoopEvent::Command(command) => {
                    if cancelled {
                        stop && final(self).table() == old(self).table()
                    } else {
                        stop == (command is Shutdown) && final(self).table() == cmd_applied(
                            old(self).table(),
                            command,
                            now,
                        )
                    }
                },
                LoopEvent::Heartbeat => !stop && final(self).table() == live(
                    old(self).table(),
                    now,
                ),
                LoopEvent::CancelSignal => stop && final(self).table() == old(self).table(),
                LoopEvent::ChannelClosed => stop && final(self).table() == old(self).table(),
            },
            final(self).spec_name() == old(self).spec_name(),
            final(self).spec_heartbeat_interval() == old(self).spec_heartbeat_interval(),
            final(self).spec_cancel_token() == old(self).spec_cancel_token(),
            final(self).spec_command_rx() == old(self).spec_command_rx(),
            final(self).spec_event_tx() == old(self).spec_event_tx(),
    {
        match event {
            LoopEvent::Command(command) => {
                if cancelled {
                    true
                } else {
                    self.handle_command(command, now)
                }
            },
            LoopEvent::Heartbeat => {
                self.check_expired_timers(now);
                false
            },
            LoopEvent::CancelSignal => true,
            LoopEvent::ChannelClosed => true,
        }
    }

    /// Take the next queued command without waiting, in the order the
    /// channel delivers them.
    pub fn try_recv_command(&mut self) -> (r: Result<TimerCommand, TryRecvFailure>)
        ensures
            final(self).table() == old(self).table(),
            final(self).spec_name() == old(self).spec_name(),
            final(self).spec_heartbeat_interval() == old(self).spec_heartbeat_interval(),
            final(self).spec_cancel_token() == old(self).spec_cancel_token(),
            final(self).spec_event_tx() == old(self).spec_event_tx(),
    {
        chan_try_recv(&mut self.command_rx)
    }
}

impl TimerHandle {
    /// Enqueue a `SetTimer` command without waiting; a failure hands the
    /// exact command back, `Full` when the caller may retry, `Closed` when
    /// the manager is gone.
    pub fn try_set_timer(&self, name: String, duration: u64) -> (r: Result<
        (),
        TrySendFailure<TimerCommand>,
    >)
        ensures
            match r {
                Ok(_) => true,
                Err(TrySendFailure::Full(c)) => c == (TimerCommand::SetTimer { name, duration }),
                Err(TrySendFailure::Closed(c)) => c == (TimerCommand::SetTimer { name, duration }),
            },
    {
        chan_try_send(&self.command_tx, TimerCommand::SetTimer { name, duration })
    }

    /// Enqueue a `CancelTimer` command without waiting; a failure hands the
    /// exact command back.
    pub fn try_cancel_timer(&self, name: String) -> (r: Result<(), TrySendFailure<TimerCommand>>)
        ensures
            match r {
                Ok(_) => true,
                Err(TrySendFailure::Full(c)) => c == (TimerCommand::CancelTimer { name }),
                Err(TrySendFailure::Closed(c)) => c == (TimerCommand::CancelTimer { name }),
            },
    {
        chan_try_send(&self.command_tx, TimerCommand::CancelTimer { name })
    }

    /// Enqueue a `CancelAllTimers` command without waiting; a failure hands
    /// the exact command back.
    pub fn try_cancel_all_timers(&self) -> (r: Result<(), TrySendFailure<TimerCommand>>)
        ensures
            match r {
                Ok(_) => true,
                Err(TrySendFailure::Full(c)) => c is CancelAllTimers,
                Err(TrySendFailure::Closed(c)) => c is CancelAllTimers,
            },
    {
        chan_try_send(&self.command_tx, TimerCommand::CancelAllTimers)
    }

    /// Enqueue a `Shutdown` command without waiting; a failure hands the
    /// exact command back. Does not wait for the manager to stop.
    pub fn try_shutdown(&self) -> (r: Result<(), TrySendFailure<TimerCommand>>)
        ensures
            match r {
                Ok(_) => true,
                Err(TrySendFailure::Full(c)) => c is Shutdown,
                Err(TrySendFailure::Closed(c)) => c is Shutdown,
            },
    {
        chan_try_send(&self.command_tx, TimerCommand::Shutdown)
    }

    /// Take the next queued event without waiting: `Empty` while the manager
    /// may yet emit, `Disconnected` once it is gone and the queue drained.
    /// The handle's command side is not touched.
    pub fn try_recv_event(&mut self) -> (r: Result<TimerEvent, TryRecvFailure>)
        ensures
            final(self).command_tx == old(self).command_tx,
    {
        chan_try_recv(&mut self.event_rx)
    }
}

} // verus!
