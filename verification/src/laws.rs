//! The laws the library states of its model: how setting, cancelling and
//! scanning compose, proved once and for all over the abstract timer table.

use vstd::prelude::*;
use crate::model::{
    action_applied, action_sets, cmd_applied, fire_count, fired, live, sat_add, ManagerAction,
};
use crate::tm::TimerCommand;

verus! {

/// A name with no pending entry stays silent: however many commands are
/// dispatched and scans run after, none fires it until some action sets it
/// anew.
pub proof fn lemma_trace_absent_stays_silent(
    table: Map<Seq<char>, u64>,
    actions: Seq<ManagerAction>,
    n: Seq<char>,
)
    requires
        !table.dom().contains(n),
        forall|i: int| 0 <= i < actions.len() ==> !action_sets(#[trigger] actions[i], n),
    ensures
        fire_count(table, actions, n) == 0,
    decreases actions.len(),
{
    if actions.len() > 0 {
        let a = actions.first();
        let table1 = action_applied(table, a);
        assert(!action_sets(a, n));
        match a {
            ManagerAction::Dispatch(command, _) => {
                match command {
                    TimerCommand::SetTimer { name, duration: _ } => {
                        assert(name@ != n);
                    },
                    _ => {},
                }
            },
            ManagerAction::Scan(_) => {},
        }
        assert(!table1.dom().contains(n));
        assert forall|i: int| 0 <= i < actions.drop_first().len() implies !action_sets(
            #[trigger] actions.drop_first()[i],
            n,
        ) by {
            assert(actions.drop_first()[i] == actions[i + 1]);
        }
        lemma_trace_absent_stays_silent(table1, actions.drop_first(), n);
    }
}

/// At-most-once delivery over a whole run: from any starting table, a
/// sequence of dispatches and scans in which nothing sets the name anew
/// fires it at most once in total — so two expirations of one name always
/// have an intervening setting.
pub proof fn lemma_trace_at_most_once(
    table: Map<Seq<char>, u64>,
    actions: Seq<ManagerAction>,
    n: Seq<char>,
)
    requires
        forall|i: int| 0 <= i < actions.len() ==> !action_sets(#[trigger] actions[i], n),
    ensures
        fire_count(table, actions, n) <= 1,
    decreases actions.len(),
{
    if actions.len() > 0 {
        let a = actions.first();
        let table1 = action_applied(table, a);
        assert forall|i: int| 0 <= i < actions.drop_first().len() implies !action_sets(
            #[trigger] actions.drop_first()[i],
            n,
        ) by {
            assert(actions.drop_first()[i] == actions[i + 1]);
        }
        match a {
            ManagerAction::Scan(now) => {
                if fired(table, now).contains(n) {
                    assert(!live(table, now).dom().contains(n));
                    lemma_trace_absent_stays_silent(table1, actions.drop_first(), n);
                } else {
                    lemma_trace_at_most_once(table1, actions.drop_first(), n);
                }
            },
            ManagerAction::Dispatch(_, _) => {
                lemma_trace_at_most_once(table1, actions.drop_first(), n);
            },
        }
    }
}

/// Setting a timer under a name that already has a pending entry replaces
/// its deadline: only the later setting remains, and every other name keeps
/// its entry.
pub proof fn lemma_set_replaces(table: Map<Seq<char>, u64>, n: Seq<char>, d1: u64, d2: u64)
    ensures
        table.insert(n, d1).insert(n, d2) == table.insert(n, d2),
        table.insert(n, d2)[n] == d2,
        table.insert(n, d2).dom() == table.dom().insert(n),
{
    assert(table.insert(n, d1).insert(n, d2) =~= table.insert(n, d2));
    assert(table.insert(n, d2).dom() =~= table.dom().insert(n));
}

/// A whole replacement cycle at the dispatch level: setting a name again
/// discards the earlier deadline wholesale — the table holds exactly one
/// entry for the name, at the later deadline, every other name is
/// untouched, and no scan before the new deadline fires the name. Stated
/// for deadlines within the time range; past its top the deadline
/// saturates instead.
pub proof fn lemma_replace_cycle(
    table: Map<Seq<char>, u64>,
    name: String,
    d1: u64,
    t1: u64,
    d2: u64,
    t2: u64,
    t: u64,
)
    requires
        t2 + d2 <= u64::MAX,
        t < t2 + d2,
    ensures
        cmd_applied(
            cmd_applied(table, (TimerCommand::SetTimer { name, duration: d1 }), t1),
            (TimerCommand::SetTimer { name, duration: d2 }),
            t2,
        ) == table.insert(name@, (t2 + d2) as u64),
        !fired(
            cmd_applied(
                cmd_applied(table, (TimerCommand::SetTimer { name, duration: d1 }), t1),
                (TimerCommand::SetTimer { name, duration: d2 }),
                t2,
            ),
            t,
        ).contains(name@),
{
    let m2 = cmd_applied(
        cmd_applied(table, TimerCommand::SetTimer { name, duration: d1 }, t1),
        TimerCommand::SetTimer { name, duration: d2 },
        t2,
    );
    assert(m2 =~= table.insert(name@, (t2 + d2) as u64));
}

/// From dispatch to detection: a timer set at `t0` to elapse after
/// `duration` is pending with deadline `t0 + duration`; no scan before that
/// deadline fires it, every scan at or after does, and when consecutive
/// scans lie at most one period apart the detecting scan comes at most one
/// period past the deadline. Stated for deadlines within the time range.
pub proof fn lemma_set_then_detect(
    table: Map<Seq<char>, u64>,
    name: String,
    duration: u64,
    t0: u64,
    t_early: u64,
    t_late: u64,
    period: u64,
)
    requires
        t0 + duration <= u64::MAX,
        t_early < t0 + duration,
        t0 + duration <= t_late,
        t_late <= sat_add(t_early, period),
    ensures
        cmd_applied(table, (TimerCommand::SetTimer { name, duration }), t0)[name@] == t0
            + duration,
        !fired(
            cmd_applied(table, (TimerCommand::SetTimer { name, duration }), t0),
            t_early,
        ).contains(name@),
        fired(
            cmd_applied(table, (TimerCommand::SetTimer { name, duration }), t0),
            t_late,
        ).contains(name@),
        t_late <= sat_add((t0 + duration) as u64, period),
{
    let m = cmd_applied(table, TimerCommand::SetTimer { name, duration }, t0);
    lemma_heartbeat_bounded_detection(m, name@, (t0 + duration) as u64, t_early, t_late, period);
}

/// A pending timer is never fired by a scan before its deadline, and is
/// fired by every scan at or after it; so with two consecutive scans at most
/// one period apart, the one straddling the deadline detects the timer no
/// later than one period past it.
pub proof fn lemma_heartbeat_bounded_detection(
    table: Map<Seq<char>, u64>,
    n: Seq<char>,
    deadline: u64,
    t_early: u64,
    t_late: u64,
    period: u64,
)
    requires
        table.dom().contains(n),
        table[n] == deadline,
        t_early < deadline,
        deadline <= t_late,
        t_late <= sat_add(t_early, period),
    ensures
        !fired(table, t_early).contains(n),
        fired(table, t_late).contains(n),
        t_late <= sat_add(deadline, period),
{
}

/// Cancelling removes the pending timer: the name is gone from the table,
/// and no scan at any later point fires it.
pub proof fn lemma_cancel_removes_pending(table: Map<Seq<char>, u64>, n: Seq<char>, t: u64)
    ensures
        !table.remove(n).dom().contains(n),
        !fired(table.remove(n), t).contains(n),
{
}

/// Cancel-all leaves an empty table: no scan at any time fires any name,
/// and nothing stays live.
pub proof fn lemma_cancel_all_clears(t: u64)
    ensures
        fired(Map::<Seq<char>, u64>::empty(), t) == Set::<Seq<char>>::empty(),
        live(Map::<Seq<char>, u64>::empty(), t) == Map::<Seq<char>, u64>::empty(),
{
    assert(fired(Map::<Seq<char>, u64>::empty(), t) =~= Set::<Seq<char>>::empty());
    assert(live(Map::<Seq<char>, u64>::empty(), t) =~= Map::<Seq<char>, u64>::empty());
}

/// A name fires at most once per setting: a scan removes whatever it fires,
/// so no later scan fires the same name again until it is set anew.
pub proof fn lemma_scan_at_most_once(table: Map<Seq<char>, u64>, t1: u64, t2: u64, n: Seq<char>)
    requires
        fired(table, t1).contains(n),
    ensures
        !live(table, t1).dom().contains(n),
        !fired(live(table, t1), t2).contains(n),
{
}

} // verus!
