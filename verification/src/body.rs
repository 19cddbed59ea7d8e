//! The JSON bodies of the requests that send one. The texts of strings, instants and
//! UUIDs come from `serde_json`; how they stand together in a body is laid down here.

use crate::codec::{
    json_guid, json_guid_text, json_string, json_string_text, json_timestamp,
    json_timestamp_text,
};
use crate::project::opt_int;
use crate::text::{decimal, decimal_text, opt_text};
use crate::timestamp::Timestamp;
use crate::types::{TimeEntryInner, TimeEntryInnerView};
use vstd::prelude::*;

verus! {

/// The texts of a sequence of strings.
pub open spec fn texts(items: Seq<String>) -> Seq<Seq<char>> {
    Seq::new(items.len(), |i: int| items[i]@)
}

/// JSON texts separated by commas, as they stand inside an array.
pub open spec fn joined(items: Seq<Seq<char>>) -> Seq<char>
    decreases items.len(),
{
    if items.len() == 0 {
        Seq::empty()
    } else if items.len() == 1 {
        items[0]
    } else {
        joined(items.drop_last()) + ","@ + items.last()
    }
}

/// The JSON text of an optional number: `null` where there is none.
pub open spec fn number_or_null(v: Option<int>) -> Seq<char> {
    match v {
        Some(n) => decimal_text(n),
        None => "null"@,
    }
}

/// The JSON text of a truth value.
pub open spec fn bool_text(b: bool) -> Seq<char> {
    if b {
        "true"@
    } else {
        "false"@
    }
}

/// The body that starts a time entry, made of the JSON texts of its description
/// and of its tags, and of its project id.
pub open spec fn start_entry_frame(
    description: Seq<char>,
    tags: Seq<Seq<char>>,
    pid: Option<int>,
) -> Seq<char> {
    "{\"time_entry\":{\"description\":"@ + description + ",\"tags\":["@ + joined(tags)
        + "],\"pid\":"@ + number_or_null(pid) + ",\"created_with\":\"toggl-rs\"}}"@
}

/// The JSON texts of the fields of a raw time entry that are not plain numbers
/// or truth values.
pub struct EntryTexts {
    pub guid: String,
    pub start: String,
    /// `null` for a running entry.
    pub stop: String,
    /// `null` for an entry without description.
    pub description: String,
    pub at: String,
}

/// The mathematical value of [`EntryTexts`].
pub struct EntryTextsView {
    pub guid: Seq<char>,
    pub start: Seq<char>,
    pub stop: Seq<char>,
    pub description: Seq<char>,
    pub at: Seq<char>,
}

impl View for EntryTexts {
    type V = EntryTextsView;

    open spec fn view(&self) -> EntryTextsView {
        EntryTextsView {
            guid: self.guid@,
            start: self.start@,
            stop: self.stop@,
            description: self.description@,
            at: self.at@,
        }
    }
}

/// The body that replaces a time entry: the fields of the raw entry in their
/// order, the numbers and truth values written out, the others as given.
pub open spec fn update_entry_frame(raw: TimeEntryInnerView, t: EntryTextsView) -> Seq<char> {
    "{\"time_entry\":{\"id\":"@ + decimal_text(raw.id) + ",\"guid\":"@ + t.guid + ",\"wid\":"@
        + decimal_text(raw.wid) + ",\"pid\":"@ + number_or_null(raw.pid) + ",\"start\":"@ + t.start
        + ",\"stop\":"@ + t.stop + ",\"duration\":"@ + decimal_text(raw.duration)
        + ",\"description\":"@ + t.description + ",\"duronly\":"@ + bool_text(raw.duronly)
        + ",\"at\":"@ + t.at + "}}"@
}

/// Appends the JSON text of an optional number.
fn append_number_or_null(s: &mut String, v: Option<i64>)
    ensures
        final(s)@ == old(s)@ + number_or_null(opt_int(v)),
{
    match v {
        Some(n) => {
            let text = decimal(n);
            s.append(text.as_str());
        },
        None => {
            s.append("null");
        },
    }
}

/// Joins JSON texts with commas.
pub fn join(items: &Vec<String>) -> (s: String)
    ensures
        s@ == joined(texts(items@)),
{
    let mut s = String::new();
    let n = items.len();
    let mut i: usize = 0;
    while i < n
        invariant
            n == items@.len(),
            i <= n,
            s@ == joined(texts(items@).take(i as int)),
        decreases n - i,
    {
        let ghost before = texts(items@).take(i as int);
        let ghost after = texts(items@).take(i + 1);
        proof {
            assert(after.drop_last() =~= before);
            assert(after.last() == items@[i as int]@);
        }
        if i > 0 {
            s.append(",");
        }
        s.append(items[i].as_str());
        proof {
            if i == 0 {
                assert(before.len() == 0);
                assert(s@ =~= items@[0]@);
            }
        }
        i += 1;
    }
    proof {
        assert(texts(items@).take(n as int) =~= texts(items@));
    }
    s
}

/// Frames the body that starts a time entry.
pub fn frame_start_entry(description: &str, tags: &Vec<String>, pid: Option<i64>) -> (s: String)
    ensures
        s@ == start_entry_frame(description@, texts(tags@), opt_int(pid)),
{
    let mut s = String::from_str("{\"time_entry\":{\"description\":");
    s.append(description);
    s.append(",\"tags\":[");
    let list = join(tags);
    s.append(list.as_str());
    s.append("],\"pid\":");
    append_number_or_null(&mut s, pid);
    s.append(",\"created_with\":\"toggl-rs\"}}");
    s
}

/// Frames the body that replaces a time entry.
pub fn frame_update_entry(raw: &TimeEntryInner, t: &EntryTexts) -> (s: String)
    ensures
        s@ == update_entry_frame(raw@, t@),
{
    let mut s = String::from_str("{\"time_entry\":{\"id\":");
    let id = decimal(raw.id);
    s.append(id.as_str());
    s.append(",\"guid\":");
    s.append(t.guid.as_str());
    s.append(",\"wid\":");
    let wid = decimal(raw.wid);
    s.append(wid.as_str());
    s.append(",\"pid\":");
    append_number_or_null(&mut s, raw.pid);
    s.append(",\"start\":");
    s.append(t.start.as_str());
    s.append(",\"stop\":");
    s.append(t.stop.as_str());
    s.append(",\"duration\":");
    let duration = decimal(raw.duration);
    s.append(duration.as_str());
    s.append(",\"description\":");
    s.append(t.description.as_str());
    s.append(",\"duronly\":");
    if raw.duronly {
        s.append("true");
    } else {
        s.append("false");
    }
    s.append(",\"at\":");
    s.append(t.at.as_str());
    s.append("}}");
    s
}

/// The JSON text of an optional string: `null` where there is none, and nothing
/// where the string has no JSON text.
pub open spec fn json_opt_string_text(s: Option<Seq<char>>) -> Option<Seq<char>> {
    match s {
        Some(t) => json_string_text(t),
        None => Some("null"@),
    }
}

/// The JSON text of an optional instant: `null` where there is none, and nothing
/// where the instant has no JSON text.
pub open spec fn json_opt_timestamp_text(t: Option<Timestamp>) -> Option<Seq<char>> {
    match t {
        Some(t) => json_timestamp_text(t.secs as int, t.nanos as int),
        None => Some("null"@),
    }
}

/// The JSON texts of strings, one for one; nothing where one of them has none.
pub open spec fn json_strings_text(items: Seq<Seq<char>>) -> Option<Seq<Seq<char>>> {
    if forall|i: int| 0 <= i < items.len() ==> json_string_text(#[trigger] items[i]) is Some {
        Some(Seq::new(items.len(), |i: int| json_string_text(items[i]).unwrap()))
    } else {
        None
    }
}

/// The body that starts a time entry with the given description, tags and
/// project id; nothing where the description or a tag has no JSON text.
pub open spec fn start_entry_body_text(
    description: Option<Seq<char>>,
    tags: Seq<Seq<char>>,
    pid: Option<int>,
) -> Option<Seq<char>> {
    match (json_opt_string_text(description), json_strings_text(tags)) {
        (Some(d), Some(ts)) => Some(start_entry_frame(d, ts, pid)),
        _ => None,
    }
}

/// The JSON texts of the fields of a raw time entry; nothing where one of them
/// has none.
pub open spec fn entry_texts(raw: TimeEntryInnerView) -> Option<EntryTextsView> {
    match (
        json_guid_text(raw.guid.0 as int),
        json_timestamp_text(raw.start.secs as int, raw.start.nanos as int),
        json_opt_timestamp_text(raw.stop),
        json_opt_string_text(raw.description),
        json_timestamp_text(raw.at.secs as int, raw.at.nanos as int),
    ) {
        (Some(guid), Some(start), Some(stop), Some(description), Some(at)) => Some(
            EntryTextsView { guid, start, stop, description, at },
        ),
        _ => None,
    }
}

/// The body that replaces a time entry by the given raw entry; nothing where a
/// field has no JSON text.
pub open spec fn update_entry_body_text(raw: TimeEntryInnerView) -> Option<Seq<char>> {
    match entry_texts(raw) {
        Some(t) => Some(update_entry_frame(raw, t)),
        None => None,
    }
}

/// Writes an optional string as JSON.
fn json_opt_string(s: &Option<String>) -> (r: Option<String>)
    ensures
        opt_text(r) == json_opt_string_text(opt_text(*s)),
{
    match s {
        Some(t) => json_string(t.as_str()),
        None => Some(String::from_str("null")),
    }
}

/// Writes an optional instant as JSON.
fn json_opt_timestamp(t: Option<Timestamp>) -> (r: Option<String>)
    ensures
        opt_text(r) == json_opt_timestamp_text(t),
{
    match t {
        Some(t) => json_timestamp(t),
        None => Some(String::from_str("null")),
    }
}

/// Writes each string as JSON.
fn json_strings(items: &[String]) -> (r: Option<Vec<String>>)
    ensures
        match r {
            Some(v) => json_strings_text(texts(items@)) == Some(texts(v@)),
            None => json_strings_text(texts(items@)) is None,
        },
{
    let mut out: Vec<String> = Vec::new();
    let n = items.len();
    let mut i: usize = 0;
    while i < n
        invariant
            n == items@.len(),
            i <= n,
            out@.len() == i,
            forall|j: int| 0 <= j < i ==> json_string_text(items@[j]@) == Some(out@[j]@),
        decreases n - i,
    {
        match json_string(items[i].as_str()) {
            Some(t) => {
                out.push(t);
            },
            None => {
                proof {
                    assert(texts(items@)[i as int] == items@[i as int]@);
                }
                return None;
            },
        }
        i += 1;
    }
    proof {
        assert forall|j: int| 0 <= j < texts(items@).len() implies json_string_text(
            #[trigger] texts(items@)[j],
        ) is Some by {
            assert(json_string_text(items@[j]@) == Some(out@[j]@));
        }
        assert(json_strings_text(texts(items@)).unwrap() =~= texts(out@));
    }
    Some(out)
}

/// The JSON body that starts a time entry with the given description, tags and
/// project id.
pub fn start_entry_body(description: &Option<String>, tags: &[String], pid: Option<i64>) -> (r:
    Option<String>)
    ensures
        opt_text(r) == start_entry_body_text(opt_text(*description), texts(tags@), opt_int(pid)),
{
    let d = match json_opt_string(description) {
        Some(d) => d,
        None => {
            return None;
        },
    };
    let ts = match json_strings(tags) {
        Some(ts) => ts,
        None => {
            return None;
        },
    };
    Some(frame_start_entry(d.as_str(), &ts, pid))
}

/// Writes the fields of a raw time entry as JSON.
pub fn entry_json_texts(raw: &TimeEntryInner) -> (r: Option<EntryTexts>)
    ensures
        match r {
            Some(t) => entry_texts(raw@) == Some(t@),
            None => entry_texts(raw@) is None,
        },
{
    let guid = match json_guid(raw.guid) {
        Some(t) => t,
        None => {
            return None;
        },
    };
    let start = match json_timestamp(raw.start) {
        Some(t) => t,
        None => {
            return None;
        },
    };
    let stop = match json_opt_timestamp(raw.stop) {
        Some(t) => t,
        None => {
            return None;
        },
    };
    let description = match json_opt_string(&raw.description) {
        Some(t) => t,
        None => {
            return None;
        },
    };
    let at = match json_timestamp(raw.at) {
        Some(t) => t,
        None => {
            return None;
        },
    };
    Some(EntryTexts { guid, start, stop, description, at })
}

/// The JSON body that replaces a time entry by the given raw entry.
pub fn update_entry_body(raw: &TimeEntryInner) -> (r: Option<String>)
    ensures
        opt_text(r) == update_entry_body_text(raw@),
{
    match entry_json_texts(raw) {
        Some(t) => Some(frame_update_entry(raw, &t)),
        None => None,
    }
}

} // verus!
