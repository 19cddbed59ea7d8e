//! The lines of the daily summary as they are printed.

use crate::body::texts;
use crate::text::{decimal_nat, unsigned_decimal};
use vstd::prelude::*;

verus! {

/// So many spaces.
pub open spec fn spaces(n: nat) -> Seq<char> {
    Seq::new(n, |i: int| ' ')
}

/// How many characters a text is short of a width.
pub open spec fn gap(text: Seq<char>, width: nat) -> nat {
    if text.len() < width {
        (width - text.len()) as nat
    } else {
        0
    }
}

/// A text at the left of a column: spaces fill the width after it. A text that
/// is wider than the column stays whole.
pub open spec fn flush_left(text: Seq<char>, width: nat) -> Seq<char> {
    text + spaces(gap(text, width))
}

/// A text at the right of a column: spaces fill the width before it.
pub open spec fn flush_right(text: Seq<char>, width: nat) -> Seq<char> {
    spaces(gap(text, width)) + text
}

/// A text in the middle of a column: of the spaces that fill the width, half
/// stand before it, and the other half, with the odd one, after it.
pub open spec fn centered(text: Seq<char>, width: nat) -> Seq<char> {
    spaces(gap(text, width) / 2) + text + spaces((gap(text, width) + 1) / 2)
}

/// Appends so many spaces.
fn append_spaces(s: &mut String, n: usize)
    ensures
        final(s)@ == old(s)@ + spaces(n as nat),
{
    let mut i: usize = 0;
    proof {
        assert(s@ =~= old(s)@ + spaces(0));
    }
    while i < n
        invariant
            i <= n,
            s@ == old(s)@ + spaces(i as nat),
        decreases n - i,
    {
        s.append(" ");
        proof {
            reveal_strlit(" ");
            assert(s@ =~= old(s)@ + spaces((i + 1) as nat));
        }
        i += 1;
    }
}

/// How many characters a text is short of a width.
fn gap_of(text: &str, width: usize) -> (r: usize)
    ensures
        r == gap(text@, width as nat),
{
    let n = text.unicode_len();
    if n < width {
        width - n
    } else {
        0
    }
}

/// Appends a text at the left of a column.
fn append_flush_left(s: &mut String, text: &str, width: usize)
    ensures
        final(s)@ == old(s)@ + flush_left(text@, width as nat),
{
    s.append(text);
    append_spaces(s, gap_of(text, width));
}

/// Appends a text at the right of a column.
fn append_flush_right(s: &mut String, text: &str, width: usize)
    ensures
        final(s)@ == old(s)@ + flush_right(text@, width as nat),
{
    append_spaces(s, gap_of(text, width));
    s.append(text);
}

/// Appends a text in the middle of a column.
fn append_centered(s: &mut String, text: &str, width: usize)
    ensures
        final(s)@ == old(s)@ + centered(text@, width as nat),
{
    let g = gap_of(text, width);
    append_spaces(s, g / 2);
    s.append(text);
    append_spaces(s, g - g / 2);
}

/// The line above and below the table of the day's time entries.
pub open spec fn rule_text() -> Seq<char> {
    "+-----------------------------------------------------------------------------------+"@
}

/// The line above and below the table of the day's time entries.
pub fn rule() -> (s: String)
    ensures
        s@ == rule_text(),
{
    String::from_str(
        "+-----------------------------------------------------------------------------------+",
    )
}

/// The row of a time entry in the table of the day: its number at a width of 2,
/// the times of its start and of its stop, its description in a column of 30,
/// the name of its project in the middle of a column of 15, and its duration at
/// the right of a column of 10.
pub open spec fn row_text(
    number: nat,
    start: Seq<char>,
    stop: Seq<char>,
    description: Seq<char>,
    project: Seq<char>,
    duration: Seq<char>,
) -> Seq<char> {
    "|"@ + flush_right(decimal_nat(number), 2) + " | "@ + start + " | "@ + stop + " | "@
        + flush_left(description, 30) + " | "@ + centered(project, 15) + " | "@ + flush_right(
        duration,
        10,
    ) + " |"@
}

/// Writes the row of a time entry in the table of the day.
pub fn table_row(
    number: usize,
    start: &str,
    stop: &str,
    description: &str,
    project: &str,
    duration: &str,
) -> (s: String)
    ensures
        s@ == row_text(number as nat, start@, stop@, description@, project@, duration@),
{
    let mut s = String::from_str("|");
    let n = unsigned_decimal(number as u64);
    append_flush_right(&mut s, n.as_str(), 2);
    s.append(" | ");
    s.append(start);
    s.append(" | ");
    s.append(stop);
    s.append(" | ");
    append_flush_left(&mut s, description, 30);
    s.append(" | ");
    append_centered(&mut s, project, 15);
    s.append(" | ");
    append_flush_right(&mut s, duration, 10);
    s.append(" |");
    s
}

/// What is said of a project below the table: its name, the time that went into
/// it, and its share of the day.
pub open spec fn project_text(name: Seq<char>, duration: Seq<char>, share: Seq<char>) -> Seq<
    char,
> {
    "| "@ + name + ": "@ + duration + " ("@ + share + "%) "@
}

/// Writes what is said of a project below the table.
pub fn project_line(name: &str, duration: &str, share: &str) -> (s: String)
    ensures
        s@ == project_text(name@, duration@, share@),
{
    let mut s = String::from_str("| ");
    s.append(name);
    s.append(": ");
    s.append(duration);
    s.append(" (");
    s.append(share);
    s.append("%) ");
    s
}

/// The last line below the table: the time of all entries, and how often the
/// work changed.
pub open spec fn total_text(duration: Seq<char>, switches: nat) -> Seq<char> {
    "| Total: "@ + duration + " | Ctx: "@ + decimal_nat(switches)
}

/// Writes the last line below the table.
pub fn total_line(duration: &str, switches: usize) -> (s: String)
    ensures
        s@ == total_text(duration@, switches as nat),
{
    let mut s = String::from_str("| Total: ");
    s.append(duration);
    s.append(" | Ctx: ");
    let n = unsigned_decimal(switches as u64);
    s.append(n.as_str());
    s
}

/// The line of the running time entry: a label, the description, the project,
/// the time of the start, and for how long the entry has been running.
pub open spec fn current_text(
    label: Seq<char>,
    description: Seq<char>,
    project: Seq<char>,
    started: Seq<char>,
    running_for: Seq<char>,
) -> Seq<char> {
    label + ": "@ + description + "@"@ + project + ", "@ + started + " Running for: "@
        + running_for
}

/// Writes the line of the running time entry.
pub fn current_line(
    label: &str,
    description: &str,
    project: &str,
    started: &str,
    running_for: &str,
) -> (s: String)
    ensures
        s@ == current_text(label@, description@, project@, started@, running_for@),
{
    let mut s = String::from_str(label);
    s.append(": ");
    s.append(description);
    s.append("@");
    s.append(project);
    s.append(", ");
    s.append(started);
    s.append(" Running for: ");
    s.append(running_for);
    s
}

/// The list of the projects with their places, as far as the first `n` names go.
pub open spec fn listed(names: Seq<Seq<char>>, n: nat) -> Seq<char>
    decreases n,
{
    if n == 0 {
        "Projects: "@
    } else {
        listed(names, (n - 1) as nat) + decimal_nat((n - 1) as nat) + ": "@ + names[n - 1] + ", "@
    }
}

/// Writes the list of the projects: each name after its place in the list, by
/// which the command line names a project.
pub fn projects_line(names: &Vec<String>) -> (s: String)
    ensures
        s@ == listed(texts(names@), names@.len()),
{
    let mut s = String::from_str("Projects: ");
    let n = names.len();
    let mut i: usize = 0;
    while i < n
        invariant
            n == names@.len(),
            i <= n,
            s@ == listed(texts(names@), i as nat),
        decreases n - i,
    {
        let place = unsigned_decimal(i as u64);
        s.append(place.as_str());
        s.append(": ");
        s.append(names[i].as_str());
        s.append(", ");
        i += 1;
    }
    s
}

} // verus!
