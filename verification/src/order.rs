//! Equality and order of time entries: they are the same entry by their id, and come
//! one before the other by their start.

use crate::types::TimeEntry;
use std::cmp::Ordering;
use vstd::prelude::*;
use vstd::std_specs::cmp::{PartialEqSpec, PartialOrdSpec};

verus! {

impl PartialEq for TimeEntry {
    /// Time entries are the same entry when they have the same id.
    fn eq(&self, other: &TimeEntry) -> (r: bool) {
        self.id == other.id
    }
}

impl Eq for TimeEntry {

}

impl vstd::std_specs::cmp::PartialEqSpecImpl for TimeEntry {
    open spec fn obeys_eq_spec() -> bool {
        true
    }

    open spec fn eq_spec(&self, other: &TimeEntry) -> bool {
        self.id == other.id
    }
}

impl PartialOrd for TimeEntry {
    /// Time entries are ordered by the instant at which they start.
    fn partial_cmp(&self, other: &TimeEntry) -> (r: Option<Ordering>) {
        self.start.partial_cmp(&other.start)
    }
}

impl vstd::std_specs::cmp::PartialOrdSpecImpl for TimeEntry {
    open spec fn obeys_partial_cmp_spec() -> bool {
        true
    }

    open spec fn partial_cmp_spec(&self, other: &TimeEntry) -> Option<Ordering> {
        self.start.compared(other.start)
    }
}

impl Clone for TimeEntry {
    fn clone(&self) -> (r: TimeEntry)
        ensures
            r == *self,
    {
        let client = match &self.client {
            Some(c) => Some(crate::share::share(c)),
            None => None,
        };
        let project = match &self.project {
            Some(p) => Some(crate::share::share(p)),
            None => None,
        };
        let description = match &self.description {
            Some(s) => Some(s.clone()),
            None => None,
        };
        TimeEntry {
            id: self.id,
            guid: self.guid,
            workspace: crate::share::share(&self.workspace),
            client,
            project,
            start: self.start,
            stop: self.stop,
            duration: self.duration,
            description,
            duronly: self.duronly,
            at: self.at,
        }
    }
}

/// Two entries with the same id are equal, whatever else differs between them.
pub proof fn lemma_same_id_is_equal(a: TimeEntry, b: TimeEntry)
    ensures
        a.eq_spec(&b) <==> a.id == b.id,
{
}

/// An entry is less than another exactly when it starts earlier.
pub proof fn lemma_less_is_starts_earlier(a: TimeEntry, b: TimeEntry)
    ensures
        a.partial_cmp_spec(&b) == Some(Ordering::Less) <==> a.start.before(b.start),
        a.partial_cmp_spec(&b) == Some(Ordering::Equal) <==> a.start == b.start,
        a.partial_cmp_spec(&b) == Some(Ordering::Greater) <==> b.start.before(a.start),
{
}

/// The entries start in non-decreasing order.
pub open spec fn sorted_by_start(s: Seq<TimeEntry>) -> bool {
    forall|k: int, l: int| 0 <= k < l < s.len() ==> s[k].start.not_after(s[l].start)
}

/// `sorted` is `entries` in the order of their starts, entries with the same start
/// in the order they had: `origin[k]` is the place in `entries` that `sorted[k]`
/// came from.
pub open spec fn is_stable_sort(
    entries: Seq<TimeEntry>,
    sorted: Seq<TimeEntry>,
    origin: Seq<int>,
) -> bool {
    &&& sorted.len() == entries.len()
    &&& origin.len() == entries.len()
    &&& forall|k: int|
        0 <= k < origin.len() ==> 0 <= #[trigger] origin[k] < entries.len() && sorted[k]
            == entries[origin[k]]
    &&& forall|k: int, l: int|
        0 <= k < l < origin.len() ==> {
            let a = entries[#[trigger] origin[k]];
            let b = entries[#[trigger] origin[l]];
            a.start.before(b.start) || (a.start == b.start && origin[k] < origin[l])
        }
}

/// Sorts time entries by their start, earliest first. Entries that start at the
/// same instant keep the order they came in.
pub fn sort_by_start(entries: Vec<TimeEntry>) -> (sorted: Vec<TimeEntry>)
    ensures
        exists|origin: Seq<int>| is_stable_sort(entries@, sorted@, origin),
        sorted_by_start(sorted@),
        sorted@.len() == entries@.len(),
{
    let mut rest = entries;
    let mut sorted: Vec<TimeEntry> = Vec::new();
    let ghost mut origin: Seq<int> = Seq::empty();
    while rest.len() > 0
        invariant
            rest@.len() <= entries@.len(),
            rest@ =~= entries@.take(rest@.len() as int),
            sorted@.len() == origin.len(),
            sorted@.len() + rest@.len() == entries@.len(),
            forall|k: int|
                0 <= k < origin.len() ==> rest@.len() <= #[trigger] origin[k] < entries@.len()
                    && sorted@[k] == entries@[origin[k]],
            forall|k: int, l: int|
                0 <= k < l < origin.len() ==> {
                    let a = entries@[#[trigger] origin[k]];
                    let b = entries@[#[trigger] origin[l]];
                    a.start.before(b.start) || (a.start == b.start && origin[k] < origin[l])
                },
        decreases rest@.len(),
    {
        let ghost j = rest@.len() - 1;
        let entry = rest.pop().unwrap();
        assert(entry == entries@[j]);
        let n = sorted.len();
        let mut pos: usize = 0;
        while pos < n && sorted[pos] < entry
            invariant
                n == sorted@.len(),
                pos <= n,
                forall|k: int| 0 <= k < pos ==> sorted@[k].start.before(entry.start),
            decreases n - pos,
        {
            pos += 1;
        }
        let ghost before = sorted@;
        let ghost origin_before = origin;
        sorted.insert(pos, entry);
        proof {
            origin = origin.insert(pos as int, j);
            assert forall|k: int| 0 <= k < origin.len() implies rest@.len() <= #[trigger] origin[k]
                < entries@.len() && sorted@[k] == entries@[origin[k]] by {
                if k < pos {
                    assert(origin[k] == origin_before[k]);
                } else if k > pos {
                    assert(origin[k] == origin_before[k - 1]);
                }
            }
            assert forall|k: int, l: int| 0 <= k < l < origin.len() implies {
                let a = entries@[#[trigger] origin[k]];
                let b = entries@[#[trigger] origin[l]];
                a.start.before(b.start) || (a.start == b.start && origin[k] < origin[l])
            } by {
                let ok = if k < pos {
                    k
                } else {
                    k - 1
                };
                let ol = if l < pos {
                    l
                } else {
                    l - 1
                };
                if k != pos {
                    assert(origin[k] == origin_before[ok]);
                    assert(before[ok] == entries@[origin_before[ok]]);
                }
                if l != pos {
                    assert(origin[l] == origin_before[ol]);
                    assert(before[ol] == entries@[origin_before[ol]]);
                }
                if k == pos {
                    if pos < n {
                        assert(!before[pos as int].start.before(entry.start));
                        assert(before[pos as int] == entries@[origin_before[pos as int]]);
                        if ol > pos {
                            assert(origin_before[pos as int] == origin_before[pos as int]);
                            let a = entries@[origin_before[pos as int]];
                            let b = entries@[origin_before[ol]];
                            assert(a.start.before(b.start) || (a.start == b.start
                                && origin_before[pos as int] < origin_before[ol]));
                        }
                    }
                }
            }
        }
    }
    proof {
        assert(rest@.len() == 0);
        assert(is_stable_sort(entries@, sorted@, origin));
        lemma_stable_sort_is_sorted(entries@, sorted@, origin);
    }
    sorted
}

/// A stable sort is sorted.
pub proof fn lemma_stable_sort_is_sorted(
    entries: Seq<TimeEntry>,
    sorted: Seq<TimeEntry>,
    origin: Seq<int>,
)
    requires
        is_stable_sort(entries, sorted, origin),
    ensures
        sorted_by_start(sorted),
{
    assert forall|k: int, l: int| 0 <= k < l < sorted.len() implies sorted[k].start.not_after(
        sorted[l].start,
    ) by {
        assert(sorted[k] == entries[origin[k]]);
        assert(sorted[l] == entries[origin[l]]);
    }
}

/// Entries of which no two start at the same instant sort into strictly increasing
/// order of their starts.
pub proof fn lemma_distinct_starts_sort_strictly(
    entries: Seq<TimeEntry>,
    sorted: Seq<TimeEntry>,
    origin: Seq<int>,
)
    requires
        is_stable_sort(entries, sorted, origin),
        forall|i: int, j: int|
            0 <= i < j < entries.len() ==> (#[trigger] entries[i]).start != (
            #[trigger] entries[j]).start,
    ensures
        forall|k: int, l: int|
            0 <= k < l < sorted.len() ==> (#[trigger] sorted[k]).start.before(
                (#[trigger] sorted[l]).start,
            ),
{
    assert forall|k: int, l: int| 0 <= k < l < sorted.len() implies (#[trigger] sorted[k]).start.before(
        (#[trigger] sorted[l]).start,
    ) by {
        assert(sorted[k] == entries[origin[k]]);
        assert(sorted[l] == entries[origin[l]]);
        let a = entries[origin[k]];
        let b = entries[origin[l]];
        assert(a.start.before(b.start) || (a.start == b.start && origin[k] < origin[l]));
    }
}

/// `i` is the place of the entry that starts last; where several start at that
/// instant, of the first of them.
pub open spec fn is_latest(entries: Seq<TimeEntry>, i: int) -> bool {
    &&& 0 <= i < entries.len()
    &&& forall|j: int| 0 <= j < entries.len() ==> entries[j].start.not_after(entries[i].start)
    &&& forall|j: int| 0 <= j < i ==> entries[j].start.before(entries[i].start)
}

/// The place of the entry that starts last, which is where a sort by start with
/// the latest first puts its first entry. There is none among no entries.
pub fn latest(entries: &[TimeEntry]) -> (r: Option<usize>)
    ensures
        match r {
            Some(i) => is_latest(entries@, i as int),
            None => entries@.len() == 0,
        },
{
    let n = entries.len();
    if n == 0 {
        return None;
    }
    let mut best: usize = 0;
    let mut i: usize = 1;
    while i < n
        invariant
            n == entries@.len(),
            1 <= i <= n,
            best < i,
            forall|j: int| 0 <= j < i ==> entries@[j].start.not_after(entries@[best as int].start),
            forall|j: int| 0 <= j < best ==> entries@[j].start.before(entries@[best as int].start),
        decreases n - i,
    {
        if entries[best].start.is_before(&entries[i].start) {
            best = i;
        }
        i += 1;
    }
    Some(best)
}

} // verus!
