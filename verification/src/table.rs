//! The timer table: a map from timer name to absolute deadline, held as a
//! vector of entries in which no name occurs twice. All contracts are stated
//! over the abstract `Map<Seq<char>, u64>` view.

use vstd::prelude::*;
use crate::model::{fired, live};

verus! {

/// One pending timer: a name and the time at which it elapses.
pub(crate) struct TimerEntry {
    pub name: String,
    pub deadline: u64,
}

/// Whether some entry of `s` is called `n`.
pub(crate) open spec fn has_name(s: Seq<TimerEntry>, n: Seq<char>) -> bool {
    exists|i: int| 0 <= i < s.len() && s[i].name@ == n
}

/// The index of an entry of `s` called `n` (meaningful when one exists).
pub(crate) open spec fn index_of_name(s: Seq<TimerEntry>, n: Seq<char>) -> int {
    choose|i: int| 0 <= i < s.len() && s[i].name@ == n
}

/// The map from names to deadlines that a sequence of entries denotes.
pub(crate) open spec fn entries_map(s: Seq<TimerEntry>) -> Map<Seq<char>, u64> {
    Map::new(
        |n: Seq<char>| has_name(s, n),
        |n: Seq<char>| s[index_of_name(s, n)].deadline,
    )
}

/// Whether no two entries of `s` share a name.
pub(crate) open spec fn names_distinct(s: Seq<TimerEntry>) -> bool {
    forall|i: int, j: int| 0 <= i < j < s.len() ==> s[i].name@ != s[j].name@
}

/// The set of names that a sequence of name strings denotes.
pub(crate) open spec fn name_views(xs: Seq<String>) -> Set<Seq<char>> {
    Set::new(|n: Seq<char>| exists|i: int| 0 <= i < xs.len() && xs[i]@ == n)
}

/// Each element of `xs` denotes a member of `name_views(xs)`.
pub(crate) proof fn lemma_name_views_member(xs: Seq<String>, i: int)
    requires
        0 <= i < xs.len(),
    ensures
        name_views(xs).contains(xs[i]@),
{
    assert(0 <= i < xs.len() && xs[i]@ == xs[i]@);
}

/// Appending a name string denotes inserting its view into the set.
pub(crate) proof fn lemma_name_views_push(xs: Seq<String>, x: String)
    ensures
        name_views(xs.push(x)) == name_views(xs).insert(x@),
{
    let t = xs.push(x);
    assert forall|n: Seq<char>| #[trigger] name_views(t).contains(n) implies
        name_views(xs).insert(x@).contains(n) by {
        let i = choose|i: int| 0 <= i < t.len() && t[i]@ == n;
        if i < xs.len() {
            assert(xs[i]@ == n);
            assert(name_views(xs).contains(n));
        } else {
            assert(t[i] == x);
        }
    }
    assert forall|n: Seq<char>| name_views(xs).insert(x@).contains(n) implies
        #[trigger] name_views(t).contains(n) by {
        if n == x@ {
            assert(t[xs.len() as int] == x);
        } else {
            let i = choose|i: int| 0 <= i < xs.len() && xs[i]@ == n;
            assert(t[i] == xs[i]);
        }
    }
    assert(name_views(t) =~= name_views(xs).insert(x@));
}

/// With distinct names, each entry of `s` is what the denoted map holds for
/// its name.
pub(crate) proof fn lemma_entry_index(s: Seq<TimerEntry>, i: int)
    requires
        names_distinct(s),
        0 <= i < s.len(),
    ensures
        entries_map(s).dom().contains(s[i].name@),
        entries_map(s)[s[i].name@] == s[i].deadline,
{
    assert(has_name(s, s[i].name@));
    let j = index_of_name(s, s[i].name@);
    assert(0 <= j < s.len() && s[j].name@ == s[i].name@);
    assert(j == i);
}

/// Appending an entry whose name is absent denotes inserting it in the map.
pub(crate) proof fn lemma_push_absent(s: Seq<TimerEntry>, e: TimerEntry)
    requires
        names_distinct(s),
        !has_name(s, e.name@),
    ensures
        names_distinct(s.push(e)),
        entries_map(s.push(e)) == entries_map(s).insert(e.name@, e.deadline),
{
    let t = s.push(e);
    assert forall|i: int, j: int| 0 <= i < j < t.len() implies t[i].name@ != t[j].name@ by {
        if j == s.len() {
            assert(t[i] == s[i]);
            assert(t[j] == e);
        } else {
            assert(t[i] == s[i]);
            assert(t[j] == s[j]);
        }
    }
    assert forall|n: Seq<char>| #[trigger] has_name(t, n) implies
        has_name(s, n) || n == e.name@ by {
        let i = index_of_name(t, n);
        assert(0 <= i < t.len() && t[i].name@ == n);
        if i < s.len() {
            assert(s[i].name@ == n);
        } else {
            assert(t[i] == e);
        }
    }
    assert forall|n: Seq<char>| has_name(s, n) implies #[trigger] has_name(t, n) by {
        let i = index_of_name(s, n);
        assert(t[i] == s[i]);
    }
    assert(t[s.len() as int] == e);
    assert(has_name(t, e.name@));
    assert forall|n: Seq<char>| #[trigger] has_name(t, n) implies
        t[index_of_name(t, n)].deadline == entries_map(s).insert(e.name@, e.deadline)[n] by {
        let i = index_of_name(t, n);
        assert(0 <= i < t.len() && t[i].name@ == n);
        if n == e.name@ {
            // the only entry of `t` called `n` is the appended one
            if i < s.len() {
                assert(s[i].name@ == n);
                assert(has_name(s, n));
            }
            assert(t[i] == e);
        } else {
            assert(i < s.len());
            assert(t[i] == s[i]);
            assert(has_name(s, n));
            let j = index_of_name(s, n);
            assert(0 <= j < s.len() && s[j].name@ == n);
            assert(j == i);
        }
    }
    assert(entries_map(t) =~= entries_map(s).insert(e.name@, e.deadline));
}

/// Removing the entry at `i` denotes removing its name from the map.
pub(crate) proof fn lemma_remove_at(s: Seq<TimerEntry>, i: int)
    requires
        names_distinct(s),
        0 <= i < s.len(),
    ensures
        names_distinct(s.remove(i)),
        !has_name(s.remove(i), s[i].name@),
        entries_map(s.remove(i)) == entries_map(s).remove(s[i].name@),
{
    let t = s.remove(i);
    s.remove_ensures(i);
    assert forall|p: int, q: int| 0 <= p < q < t.len() implies t[p].name@ != t[q].name@ by {
        let p0: int = if p < i { p } else { p + 1 };
        let q0: int = if q < i { q } else { q + 1 };
        assert(t[p] == s[p0] && t[q] == s[q0]);
        assert(p0 < q0);
    }
    assert forall|k: int| 0 <= k < t.len() implies t[k].name@ != s[i].name@ by {
        let k0: int = if k < i { k } else { k + 1 };
        assert(t[k] == s[k0]);
        assert(k0 != i);
    }
    assert forall|n: Seq<char>| #[trigger] has_name(t, n) implies
        has_name(s, n) && n != s[i].name@ by {
        let k = index_of_name(t, n);
        let k0: int = if k < i { k } else { k + 1 };
        assert(t[k] == s[k0]);
    }
    assert forall|n: Seq<char>| has_name(s, n) && n != s[i].name@ implies
        #[trigger] has_name(t, n) by {
        let j = index_of_name(s, n);
        assert(0 <= j < s.len() && s[j].name@ == n);
        assert(j != i);
        let k: int = if j < i { j } else { j - 1 };
        assert(t[k] == s[j]);
    }
    assert forall|n: Seq<char>| #[trigger] has_name(t, n) implies
        t[index_of_name(t, n)].deadline == entries_map(s)[n] by {
        let k = index_of_name(t, n);
        assert(0 <= k < t.len() && t[k].name@ == n);
        let k0: int = if k < i { k } else { k + 1 };
        assert(t[k] == s[k0]);
        lemma_entry_index(s, k0);
    }
    assert(entries_map(t) =~= entries_map(s).remove(s[i].name@));
}

/// The index of the entry of `entries` called `name`, if one is pending.
fn find_position(entries: &Vec<TimerEntry>, name: &String) -> (r: Option<usize>)
    ensures
        match r {
            Some(i) => i < entries@.len() && entries@[i as int].name@ == name@,
            None => !has_name(entries@, name@),
        },
{
    let mut i: usize = 0;
    while i < entries.len()
        invariant
            i <= entries@.len(),
            forall|j: int| 0 <= j < i ==> entries@[j].name@ != name@,
        decreases entries@.len() - i,
    {
        if entries[i].name == *name {
            return Some(i);
        }
        i += 1;
    }
    None
}

/// The index of some entry of `entries` whose deadline has elapsed at `now`.
fn find_expired(entries: &Vec<TimerEntry>, now: u64) -> (r: Option<usize>)
    ensures
        match r {
            Some(i) => i < entries@.len() && entries@[i as int].deadline <= now,
            None => forall|j: int| 0 <= j < entries@.len() ==> entries@[j].deadline > now,
        },
{
    let mut i: usize = 0;
    while i < entries.len()
        invariant
            i <= entries@.len(),
            forall|j: int| 0 <= j < i ==> entries@[j].deadline > now,
        decreases entries@.len() - i,
    {
        if entries[i].deadline <= now {
            return Some(i);
        }
        i += 1;
    }
    None
}

/// The timer table, owned by one manager; names are unique, and setting an
/// existing name replaces its deadline.
pub(crate) struct TimerTable {
    entries: Vec<TimerEntry>,
}

impl View for TimerTable {
    type V = Map<Seq<char>, u64>;

    closed spec fn view(&self) -> Map<Seq<char>, u64> {
        entries_map(self.entries@)
    }
}

impl TimerTable {
    #[verifier::type_invariant]
    spec fn wf(self) -> bool {
        names_distinct(self.entries@)
    }

    /// An empty table.
    pub(crate) fn new() -> (t: Self)
        ensures
            t@ == Map::<Seq<char>, u64>::empty(),
    {
        let t = TimerTable { entries: Vec::new() };
        proof {
            assert(t@ =~= Map::<Seq<char>, u64>::empty());
        }
        t
    }

    /// Insert the timer called `name` with the given deadline, replacing any
    /// pending entry under that name.
    pub(crate) fn set(&mut self, name: String, deadline: u64)
        ensures
            final(self)@ == old(self)@.insert(name@, deadline),
    {
        proof {
            use_type_invariant(&*self);
        }
        let pos = find_position(&self.entries, &name);
        let mut es: Vec<TimerEntry> = Vec::new();
        std::mem::swap(&mut es, &mut self.entries);
        let ghost s0 = es@;
        if let Some(i) = pos {
            proof {
                lemma_remove_at(s0, i as int);
            }
            es.remove(i);
        }
        proof {
            lemma_push_absent(es@, TimerEntry { name, deadline });
        }
        es.push(TimerEntry { name, deadline });
        self.entries = es;
        proof {
            assert(final(self)@ =~= old(self)@.insert(name@, deadline));
        }
    }

    /// Remove the timer called `name`; a no-op if no such timer is pending.
    pub(crate) fn cancel(&mut self, name: &String)
        ensures
            final(self)@ == old(self)@.remove(name@),
    {
        proof {
            use_type_invariant(&*self);
        }
        match find_position(&self.entries, name) {
            Some(i) => {
                let mut es: Vec<TimerEntry> = Vec::new();
                std::mem::swap(&mut es, &mut self.entries);
                proof {
                    lemma_remove_at(es@, i as int);
                }
                es.remove(i);
                self.entries = es;
            },
            None => {
                proof {
                    assert(old(self)@.remove(name@) =~= old(self)@);
                }
            },
        }
    }

    /// Remove every pending timer.
    pub(crate) fn clear(&mut self)
        ensures
            final(self)@ == Map::<Seq<char>, u64>::empty(),
    {
        self.entries = Vec::new();
        proof {
            assert(final(self)@ =~= Map::<Seq<char>, u64>::empty());
        }
    }

    /// Remove every entry whose deadline has elapsed at `now` and hand its
    /// name out; what stays is exactly the live part of the table.
    pub(crate) fn drain_expired(&mut self, now: u64) -> (expired: Vec<String>)
        ensures
            final(self)@ == live(old(self)@, now),
            name_views(expired@) == fired(old(self)@, now),
            forall|i: int, j: int|
                0 <= i < j < expired@.len() ==> expired@[i]@ != expired@[j]@,
    {
        proof {
            use_type_invariant(&*self);
        }
        let ghost m0 = self@;
        let mut es: Vec<TimerEntry> = Vec::new();
        std::mem::swap(&mut es, &mut self.entries);
        let mut expired: Vec<String> = Vec::new();
        loop
            invariant
                names_distinct(es@),
                entries_map(es@) == m0.remove_keys(name_views(expired@)),
                forall|i: int|
                    0 <= i < expired@.len() ==> #[trigger] fired(m0, now).contains(expired@[i]@),
                forall|i: int, j: int|
                    0 <= i < j < expired@.len() ==> expired@[i]@ != expired@[j]@,
            ensures
                names_distinct(es@),
                entries_map(es@) == m0.remove_keys(name_views(expired@)),
                forall|i: int|
                    0 <= i < expired@.len() ==> #[trigger] fired(m0, now).contains(expired@[i]@),
                forall|i: int, j: int|
                    0 <= i < j < expired@.len() ==> expired@[i]@ != expired@[j]@,
                forall|j: int| 0 <= j < es@.len() ==> es@[j].deadline > now,
            decreases es@.len(),
        {
            let ghost names = name_views(expired@);
            let ghost xs0 = expired@;
            match find_expired(&es, now) {
                Some(i) => {
                    let ghost s0 = es@;
                    let name = es[i].name.clone();
                    proof {
                        lemma_entry_index(s0, i as int);
                        // the entry's name is still in the denoted map, so it
                        // has not been drained before
                        assert(!names.contains(name@));
                        lemma_remove_at(s0, i as int);
                        lemma_name_views_push(xs0, name);
                        assert forall|a: int| 0 <= a < xs0.len() implies
                            names.contains(xs0[a]@) by {
                            lemma_name_views_member(xs0, a);
                        }
                    }
                    es.remove(i);
                    expired.push(name);
                    proof {
                        assert(name_views(expired@) == names.insert(name@));
                        assert(entries_map(es@) =~= m0.remove_keys(names.insert(name@)));
                        assert forall|a: int, b: int| 0 <= a < b < expired@.len() implies
                            expired@[a]@ != expired@[b]@ by {
                            if b == xs0.len() {
                                assert(expired@[a] == xs0[a]);
                                assert(names.contains(xs0[a]@));
                            } else {
                                assert(expired@[a] == xs0[a] && expired@[b] == xs0[b]);
                            }
                        }
                        assert forall|a: int| 0 <= a < expired@.len() implies
                            #[trigger] fired(m0, now).contains(expired@[a]@) by {
                            if a < xs0.len() {
                                assert(expired@[a] == xs0[a]);
                            } else {
                                assert(expired@[a] == name);
                                assert(m0.dom().contains(name@) && m0[name@] <= now);
                            }
                        }
                    }
                },
                None => {
                    break;
                },
            }
        }
        self.entries = es;
        proof {
            let names = name_views(expired@);
            assert forall|n: Seq<char>| fired(m0, now).contains(n) implies names.contains(n) by {
                if !names.contains(n) {
                    assert(self@.dom().contains(n));
                    assert(has_name(self.entries@, n));
                    let i = index_of_name(self.entries@, n);
                    assert(0 <= i < self.entries@.len() && self.entries@[i].name@ == n);
                    lemma_entry_index(self.entries@, i);
                }
            }
            assert(names =~= fired(m0, now));
            assert forall|n: Seq<char>| #[trigger] self@.dom().contains(n) implies
                self@[n] > now by {
                assert(has_name(self.entries@, n));
                let i = index_of_name(self.entries@, n);
                assert(0 <= i < self.entries@.len() && self.entries@[i].name@ == n);
                lemma_entry_index(self.entries@, i);
            }
            assert(self@ =~= live(m0, now));
        }
        expired
    }
}

} // verus!
