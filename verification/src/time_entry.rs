//! The operations on time entries: the request of each, and the conversion of the
//! replies.

use crate::body::{
    start_entry_body, start_entry_body_text, texts, update_entry_body, update_entry_body_text,
};
use crate::project::Project;
use crate::request::{
    current_url, current_url_text, entry_url, entry_url_text, request_as, start_url,
    start_url_text, stop_url, stop_url_text, time_entries_url, time_entries_url_text, Method,
    Request, RequestView,
};
use crate::text::opt_text;
use crate::timestamp::Timestamp;
use crate::toggl::Toggl;
use crate::types::{
    convert, converted, has_workspace, raw_of, resolved_entry, resolved_workspace, TimeEntry,
    TimeEntryInner, TimeEntryReturn, TimeEntryUpdate,
};
use vstd::prelude::*;

verus! {

/// The time entries of a session: the request that each operation sends. Sending
/// it, and reading the reply, is the caller's part.
pub trait TimeEntryExt {
    /// The request for all time entries; none where it cannot be made.
    fn get_time_entries(&self) -> Option<Request>;

    /// The request for the time entries between `start` and `end`, both inclusive,
    /// where a bound that is not given does not constrain; none where it cannot be
    /// made.
    fn get_time_entries_range(&self, start: Option<Timestamp>, end: Option<Timestamp>) -> Option<
        Request,
    >;

    /// The request that starts a time entry with a description, tags and a
    /// project; none where it cannot be made.
    fn start_entry(
        &self,
        description: Option<String>,
        tags: &[String],
        p: Option<&Project>,
    ) -> Option<Request>;

    /// The request that stops the given time entry, which it names by its id.
    fn stop_entry(&self, t: &TimeEntry) -> Request;

    /// The request for the time entry with the given id.
    fn get_entry_details(&self, id: i64) -> Request;

    /// The request for the running time entry.
    fn get_running_entry(&self) -> Request;

    /// The request that replaces the service's record of the time entry by the
    /// given one; none where it cannot be made.
    fn update_entry(&self, t: TimeEntry) -> Option<Request>;

    /// The request that deletes the given time entry, which it names by its id.
    fn delete_entry(&self, t: &TimeEntry) -> Request;
}

/// The request for a range of time entries under a credential; none where the
/// address cannot be made.
pub open spec fn range_request(
    token: Seq<char>,
    start: Option<Timestamp>,
    end: Option<Timestamp>,
) -> Option<RequestView> {
    match time_entries_url_text(start, end) {
        Some(url) => Some(request_as(token, Method::Get, url, None)),
        None => None,
    }
}

/// The request that starts a time entry under a credential; none where the body
/// cannot be made.
pub open spec fn start_request(
    token: Seq<char>,
    description: Option<Seq<char>>,
    tags: Seq<Seq<char>>,
    pid: Option<int>,
) -> Option<RequestView> {
    match start_entry_body_text(description, tags, pid) {
        Some(body) => Some(request_as(token, Method::Post, start_url_text(), Some(body))),
        None => None,
    }
}

/// The request that replaces a time entry under a credential; none where the
/// body cannot be made.
pub open spec fn update_request(token: Seq<char>, t: TimeEntry) -> Option<RequestView> {
    match update_entry_body_text(raw_of(t)@) {
        Some(body) => Some(
            request_as(token, Method::Put, entry_url_text(t.id as int), Some(body)),
        ),
        None => None,
    }
}

/// The value of an optional request.
pub open spec fn opt_request(r: Option<Request>) -> Option<RequestView> {
    match r {
        Some(r) => Some(r@),
        None => None,
    }
}

/// The id of an optional project.
pub open spec fn project_id(p: Option<&Project>) -> Option<int> {
    match p {
        Some(p) => Some(p.id as int),
        None => None,
    }
}

impl TimeEntryExt for Toggl {
    fn get_time_entries(&self) -> (r: Option<Request>)
        ensures
            opt_request(r) == range_request(self.api_token@, None, None),
    {
        self.get_time_entries_range(None, None)
    }

    fn get_time_entries_range(&self, start: Option<Timestamp>, end: Option<Timestamp>) -> (r:
        Option<Request>)
        ensures
            opt_request(r) == range_request(self.api_token@, start, end),
    {
        match time_entries_url(start, end) {
            Some(url) => Some(Request::new(self.api_token.as_str(), Method::Get, url, None)),
            None => None,
        }
    }

    fn start_entry(&self, description: Option<String>, tags: &[String], p: Option<&Project>) -> (r:
        Option<Request>)
        ensures
            opt_request(r) == start_request(
                self.api_token@,
                opt_text(description),
                texts(tags@),
                project_id(p),
            ),
    {
        let pid = match p {
            Some(project) => Some(project.id),
            None => None,
        };
        match start_entry_body(&description, tags, pid) {
            Some(body) => Some(
                Request::new(self.api_token.as_str(), Method::Post, start_url(), Some(body)),
            ),
            None => None,
        }
    }

    fn stop_entry(&self, t: &TimeEntry) -> (r: Request)
        ensures
            r@ == request_as(self.api_token@, Method::Get, stop_url_text(t.id as int), None),
    {
        Request::new(self.api_token.as_str(), Method::Get, stop_url(t.id), None)
    }

    fn get_entry_details(&self, id: i64) -> (r: Request)
        ensures
            r@ == request_as(self.api_token@, Method::Get, entry_url_text(id as int), None),
    {
        Request::new(self.api_token.as_str(), Method::Get, entry_url(id), None)
    }

    fn get_running_entry(&self) -> (r: Request)
        ensures
            r@ == request_as(self.api_token@, Method::Get, current_url_text(), None),
    {
        Request::new(self.api_token.as_str(), Method::Get, current_url(), None)
    }

    fn update_entry(&self, t: TimeEntry) -> (r: Option<Request>)
        ensures
            opt_request(r) == update_request(self.api_token@, t),
    {
        let id = t.id;
        let entry = TimeEntryUpdate::from(t);
        match update_entry_body(&entry.time_entry) {
            Some(body) => Some(
                Request::new(self.api_token.as_str(), Method::Put, entry_url(id), Some(body)),
            ),
            None => None,
        }
    }

    fn delete_entry(&self, t: &TimeEntry) -> (r: Request)
        ensures
            r@ == request_as(self.api_token@, Method::Delete, entry_url_text(t.id as int), None),
    {
        Request::new(self.api_token.as_str(), Method::Delete, entry_url(t.id), None)
    }
}

impl Toggl {
    /// Every one of the raw entries lies in a workspace of the user.
    pub open spec fn knows_workspaces(&self, res: Seq<TimeEntryInner>) -> bool {
        forall|i: int|
            0 <= i < res.len() ==> resolved_workspace(
                self.user.workspaces@,
                (#[trigger] res[i])@.wid,
            ) is Some
    }

    /// Tells whether every one of the raw entries lies in a workspace of the user,
    /// so that they can be converted.
    pub fn can_convert(&self, res: &[TimeEntryInner]) -> (r: bool)
        ensures
            r == self.knows_workspaces(res@),
    {
        let n = res.len();
        let mut i: usize = 0;
        while i < n
            invariant
                n == res@.len(),
                i <= n,
                self.knows_workspaces(res@.take(i as int)),
            decreases n - i,
        {
            if !has_workspace(self.user.workspaces.as_slice(), res[i].wid) {
                return false;
            }
            proof {
                assert forall|j: int| 0 <= j < i + 1 implies resolved_workspace(
                    self.user.workspaces@,
                    (#[trigger] res@.take(i + 1)[j])@.wid,
                ) is Some by {
                    if j < i {
                        assert(res@.take(i as int)[j] == res@.take(i + 1)[j]);
                    }
                }
            }
            i += 1;
        }
        proof {
            assert(res@.take(n as int) =~= res@);
        }
        true
    }

    /// Converts the raw time entries of a reply, one for one and in the reply's
    /// order, against the session's workspaces, projects and clients.
    pub fn convert_response(&self, res: &[TimeEntryInner]) -> (r: Vec<TimeEntry>)
        requires
            self.knows_workspaces(res@),
        ensures
            r@.len() == res@.len(),
            forall|i: int|
                0 <= i < r@.len() ==> (#[trigger] r@[i]) == resolved_entry(
                    self.clients@,
                    self.projects@,
                    self.user.workspaces@,
                    res@[i],
                ),
            forall|i: int|
                0 <= i < r@.len() ==> (#[trigger] r@[i])@ == converted(
                    self.clients@,
                    self.projects@,
                    self.user.workspaces@,
                    res@[i]@,
                ),
    {
        let mut out: Vec<TimeEntry> = Vec::new();
        let n = res.len();
        let mut i: usize = 0;
        while i < n
            invariant
                n == res@.len(),
                i <= n,
                out@.len() == i,
                self.knows_workspaces(res@),
                forall|j: int|
                    0 <= j < i ==> (#[trigger] out@[j]) == resolved_entry(
                        self.clients@,
                        self.projects@,
                        self.user.workspaces@,
                        res@[j],
                    ),
                forall|j: int|
                    0 <= j < i ==> (#[trigger] out@[j])@ == converted(
                        self.clients@,
                        self.projects@,
                        self.user.workspaces@,
                        res@[j]@,
                    ),
            decreases n - i,
        {
            assert(resolved_workspace(self.user.workspaces@, res@[i as int]@.wid) is Some);
            let entry = convert(
                self.clients.as_slice(),
                self.projects.as_slice(),
                self.user.workspaces.as_slice(),
                &res[i],
            );
            out.push(entry);
            i += 1;
        }
        out
    }

    /// Converts the raw time entry of a reply, where the reply holds one.
    pub fn convert_single(&self, res: &TimeEntryReturn) -> (r: Option<TimeEntry>)
        requires
            res.data matches Some(raw) ==> resolved_workspace(self.user.workspaces@, raw@.wid)
                is Some,
        ensures
            match res.data {
                Some(raw) => r matches Some(t) && t == resolved_entry(
                    self.clients@,
                    self.projects@,
                    self.user.workspaces@,
                    raw,
                ) && t@ == converted(
                    self.clients@,
                    self.projects@,
                    self.user.workspaces@,
                    raw@,
                ),
                None => r is None,
            },
    {
        match &res.data {
            Some(raw) => Some(
                convert(
                    self.clients.as_slice(),
                    self.projects.as_slice(),
                    self.user.workspaces.as_slice(),
                    raw,
                ),
            ),
            None => None,
        }
    }
}

} // verus!
