//! The mathematical model of the manager: a timer table is a map from a
//! name (as a sequence of characters) to an absolute deadline, and every
//! public contract is stated over that map.

use vstd::prelude::*;
use crate::tm::TimerCommand;

verus! {

/// Addition on the time scale, saturating at the top of the range so that a
/// deadline computation is total.
pub open spec fn sat_add(a: u64, b: u64) -> u64 {
    if a + b > u64::MAX {
        u64::MAX
    } else {
        (a + b) as u64
    }
}

/// The entries of `table` that are still pending at time `now`: those whose
/// deadline lies strictly in the future. This is what a heartbeat scan at
/// `now` leaves in the table.
pub open spec fn live(table: Map<Seq<char>, u64>, now: u64) -> Map<Seq<char>, u64> {
    Map::new(
        |n: Seq<char>| table.dom().contains(n) && table[n] > now,
        |n: Seq<char>| table[n],
    )
}

/// The names of `table` whose deadline has elapsed at time `now`: those a
/// heartbeat scan at `now` removes and reports as expired.
pub open spec fn fired(table: Map<Seq<char>, u64>, now: u64) -> Set<Seq<char>> {
    table.dom().filter(|n: Seq<char>| table[n] <= now)
}

/// What dispatching one command at time `now` does to the timer table.
pub open spec fn cmd_applied(
    table: Map<Seq<char>, u64>,
    command: TimerCommand,
    now: u64,
) -> Map<Seq<char>, u64> {
    match command {
        TimerCommand::SetTimer { name, duration } => table.insert(name@, sat_add(now, duration)),
        TimerCommand::CancelTimer { name } => table.remove(name@),
        TimerCommand::CancelAllTimers => Map::empty(),
        TimerCommand::Shutdown => table,
    }
}

/// One table-touching action of a manager's run: dispatching one command at
/// a time, or running one expiry scan at a time — exactly what a single
/// loop step does to the table.
pub enum ManagerAction {
    /// One command, dispatched at the given time.
    Dispatch(TimerCommand, u64),
    /// One expiry scan, run at the given time.
    Scan(u64),
}

/// The table after one action.
pub open spec fn action_applied(
    table: Map<Seq<char>, u64>,
    action: ManagerAction,
) -> Map<Seq<char>, u64> {
    match action {
        ManagerAction::Dispatch(command, now) => cmd_applied(table, command, now),
        ManagerAction::Scan(now) => live(table, now),
    }
}

/// Whether the action sets the timer called `n` anew.
pub open spec fn action_sets(action: ManagerAction, n: Seq<char>) -> bool {
    match action {
        ManagerAction::Dispatch(command, _) => match command {
            TimerCommand::SetTimer { name, duration: _ } => name@ == n,
            _ => false,
        },
        ManagerAction::Scan(_) => false,
    }
}

/// How many of the scans in `actions`, run left to right from `table`, fire
/// the name `n`.
pub open spec fn fire_count(
    table: Map<Seq<char>, u64>,
    actions: Seq<ManagerAction>,
    n: Seq<char>,
) -> nat
    decreases actions.len(),
{
    if actions.len() == 0 {
        0
    } else {
        let here: nat = match actions.first() {
            ManagerAction::Scan(now) => if fired(table, now).contains(n) {
                1
            } else {
                0
            },
            ManagerAction::Dispatch(_, _) => 0,
        };
        here + fire_count(action_applied(table, actions.first()), actions.drop_first(), n)
    }
}

} // verus!
