//! The figures of the daily summary: how long entries lasted, what they add up to by
//! project and in total, and how a duration is shown.

use crate::codec::{elapsed_seconds, seconds_between};
use crate::project::{opt_int, Project};
use crate::text::{decimal, decimal_text, unsigned_decimal};
use crate::timestamp::Timestamp;
use crate::types::TimeEntry;
use vstd::prelude::*;
use vstd::std_specs::cmp::PartialEqSpec;

verus! {

/// A number's text at a width of two: a shorter text has `fill` before it.
pub open spec fn padded(text: Seq<char>, fill: char) -> Seq<char> {
    if text.len() < 2 {
        seq![fill] + text
    } else {
        text
    }
}

/// The whole minutes of a number of seconds, rounded towards zero.
pub open spec fn whole_minutes(seconds: int) -> int {
    if seconds >= 0 {
        seconds / 60
    } else {
        -((-seconds) / 60)
    }
}

/// How a duration of so many seconds is shown: hours and minutes as ` 1:05 h`
/// from an hour on, minutes alone as `42 m` below an hour, and nothing for a
/// duration of an hour or more backwards.
pub open spec fn duration_text(seconds: int) -> Seq<char> {
    if seconds >= 3600 {
        padded(decimal_text(seconds / 3600), ' ') + ":"@ + padded(
            decimal_text((seconds / 60) % 60),
            '0',
        ) + " h"@
    } else if seconds > -3600 {
        decimal_text(whole_minutes(seconds)) + " m"@
    } else {
        Seq::empty()
    }
}

/// Appends a number at a width of two.
fn append_padded(s: &mut String, n: u64, fill: &str)
    requires
        fill@.len() == 1,
    ensures
        final(s)@ == old(s)@ + padded(decimal_text(n as int), fill@[0]),
{
    let text = unsigned_decimal(n);
    proof {
        crate::text::lemma_decimal_nat_nonempty(n as nat);
        crate::text::lemma_decimal_nat_short(n as nat);
        assert(fill@ =~= seq![fill@[0]]);
    }
    if n < 10 {
        s.append(fill);
    }
    s.append(text.as_str());
}

/// Shows a duration of so many seconds.
pub fn format_duration(seconds: i64) -> (st: String)
    ensures
        st@ == duration_text(seconds as int),
{
    let mut st = String::new();
    if seconds >= 3600 {
        let hours: u64 = (seconds / 3600) as u64;
        let mins: u64 = ((seconds / 60) % 60) as u64;
        proof {
            reveal_strlit(" ");
            reveal_strlit("0");
        }
        append_padded(&mut st, hours, " ");
        st.append(":");
        append_padded(&mut st, mins, "0");
        st.append(" h");
    } else if seconds > -3600 {
        let mins: i64 = if seconds >= 0 {
            seconds / 60
        } else {
            -((-seconds) / 60)
        };
        let text = decimal(mins);
        st.append(text.as_str());
        st.append(" m");
    }
    st
}

/// The whole seconds that a time entry lasted, from its start to its stop: none
/// for a running entry, and none where the instants cannot be told apart.
pub open spec fn entry_seconds(start: Timestamp, stop: Option<Timestamp>) -> Option<int> {
    match stop {
        Some(t) => elapsed_seconds(
            start.secs as int,
            start.nanos as int,
            t.secs as int,
            t.nanos as int,
        ),
        None => None,
    }
}

/// Whether the time entry is running: a running entry has no stop.
pub fn is_running(entry: &TimeEntry) -> (r: bool)
    ensures
        r == (entry.stop is None),
{
    entry.stop.is_none()
}

/// The whole seconds that a time entry lasted.
pub fn elapsed(entry: &TimeEntry) -> (r: Option<i64>)
    ensures
        opt_int(r) == entry_seconds(entry.start, entry.stop),
{
    match entry.stop {
        Some(stop) => seconds_between(entry.start, stop),
        None => None,
    }
}

/// Whether a time entry counts towards a project: towards its own project, and
/// towards the total, which is asked for by naming no project.
pub open spec fn counts_for(entry: TimeEntry, only: Option<&Project>) -> bool {
    match only {
        Some(project) => entry.project matches Some(p) && (*p).eq_spec(project),
        None => true,
    }
}

/// The seconds that the time entries which count lasted, all told; none where
/// one of them has no duration.
pub open spec fn seconds_of(entries: Seq<TimeEntry>, only: Option<&Project>) -> Option<int>
    decreases entries.len(),
{
    if entries.len() == 0 {
        Some(0)
    } else {
        let last = entries.last();
        match seconds_of(entries.drop_last(), only) {
            Some(rest) => if counts_for(last, only) {
                match entry_seconds(last.start, last.stop) {
                    Some(d) => Some(rest + d),
                    None => None,
                }
            } else {
                Some(rest)
            },
            None => None,
        }
    }
}

/// A number of seconds as a machine integer, where it is one.
pub open spec fn fitting(seconds: Option<int>) -> Option<int> {
    match seconds {
        Some(v) => if i64::MIN <= v <= i64::MAX {
            Some(v)
        } else {
            None
        },
        None => None,
    }
}

/// Adds up the seconds that time entries lasted: those of one project, or of all
/// where no project is named. There is no sum where an entry that counts is
/// running, or has no duration, or where the sum is too large for the machine.
pub fn sum_seconds(entries: &[TimeEntry], only: Option<&Project>) -> (r: Option<i64>)
    ensures
        opt_int(r) == fitting(seconds_of(entries@, only)),
{
    let n = entries.len();
    let mut acc: i128 = 0;
    let mut i: usize = 0;
    while i < n
        invariant
            n == entries@.len(),
            i <= n,
            seconds_of(entries@.take(i as int), only) == Some(acc as int),
            -(i as int) * 0x8000_0000_0000_0000 <= acc <= (i as int) * 0x8000_0000_0000_0000,
        decreases n - i,
    {
        proof {
            assert(entries@.take(i + 1).drop_last() =~= entries@.take(i as int));
            assert(entries@.take(i + 1).last() == entries@[i as int]);
        }
        let counts = match only {
            Some(project) => match &entries[i].project {
                Some(p) => **p == *project,
                None => false,
            },
            None => true,
        };
        if counts {
            match elapsed(&entries[i]) {
                Some(d) => {
                    assert((i as int) * 0x8000_0000_0000_0000 + 0x8000_0000_0000_0000 == (i + 1)
                        * 0x8000_0000_0000_0000) by (nonlinear_arith);
                    assert(i < 0x1_0000_0000_0000_0000);
                    assert((i + 1) * 0x8000_0000_0000_0000 <= 0x1_0000_0000_0000_0000
                        * 0x8000_0000_0000_0000) by (nonlinear_arith)
                        requires
                            i + 1 <= 0x1_0000_0000_0000_0000,
                    ;
                    acc = acc + d as i128;
                },
                None => {
                    proof {
                        lemma_seconds_of_prefix(entries@, only, i + 1);
                    }
                    return None;
                },
            }
        } else {
            assert((i as int) * 0x8000_0000_0000_0000 <= (i + 1) * 0x8000_0000_0000_0000)
                by (nonlinear_arith);
        }
        i += 1;
    }
    proof {
        assert(entries@.take(n as int) =~= entries@);
    }
    if acc < i64::MIN as i128 || acc > i64::MAX as i128 {
        None
    } else {
        Some(acc as i64)
    }
}

/// Where the entries up to some place have no sum, all of them have none.
pub proof fn lemma_seconds_of_prefix(entries: Seq<TimeEntry>, only: Option<&Project>, k: int)
    requires
        0 <= k <= entries.len(),
        seconds_of(entries.take(k), only) is None,
    ensures
        seconds_of(entries, only) is None,
    decreases entries.len() - k,
{
    if k < entries.len() {
        assert(entries.take(k + 1).drop_last() =~= entries.take(k));
        lemma_seconds_of_prefix(entries, only, k + 1);
    } else {
        assert(entries.take(k) =~= entries);
    }
}

/// The time entries of the day that are over: the last of the day's entries is
/// the running one, where one is running, and is left out.
pub fn stored_entries(entries: Vec<TimeEntry>, running: bool) -> (r: Vec<TimeEntry>)
    ensures
        r@ == if running && entries@.len() > 0 {
            entries@.drop_last()
        } else {
            entries@
        },
{
    let mut entries = entries;
    let n = entries.len();
    if running && n > 0 {
        entries.truncate(n - 1);
    }
    entries
}

/// How often the work changed between so many time entries: once less than there
/// are entries, and never between none.
pub fn context_switches(entries: usize) -> (r: usize)
    ensures
        r == if entries == 0 {
            0
        } else {
            entries - 1
        },
{
    if entries == 0 {
        0
    } else {
        entries - 1
    }
}

/// The instant at which the day of `now` began, in UTC.
pub open spec fn day_start_of(now: Timestamp) -> Timestamp {
    Timestamp { secs: (now.secs - now.secs % 86400) as i64, nanos: 0 }
}

/// The instant at which the day of `now` began, in UTC. The seconds of that
/// instant must be a machine integer, which they are but for the first day that
/// one can hold.
pub fn day_start(now: Timestamp) -> (r: Timestamp)
    requires
        now.secs - 86399 >= i64::MIN,
    ensures
        r == day_start_of(now),
        r.secs % 86400 == 0,
        r.secs <= now.secs < r.secs + 86400,
        r.nanos == 0,
{
    let into_day: i64 = if now.secs >= 0 {
        now.secs % 86400
    } else {
        let back: i64 = (-(now.secs + 1)) % 86400;
        86399 - back
    };
    Timestamp { secs: now.secs - into_day, nanos: 0 }
}

} // verus!
