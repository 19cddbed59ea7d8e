//! Requests to the service, and the addresses that they go to.

use crate::codec::{params_text, rfc3339, rfc3339_text, url_with_params, url_with_params_text};
use crate::text::{decimal, decimal_text, opt_text};
use crate::timestamp::Timestamp;
use vstd::prelude::*;

verus! {

/// The verb of a request.
#[derive(Clone, Copy, Debug, PartialEq, Eq, Structural)]
pub enum Method {
    Get,
    Post,
    Put,
    Delete,
}

/// One call of the service: what to send, where, and as whom.
#[derive(Debug)]
pub struct Request {
    pub method: Method,
    pub url: String,
    /// The user name of HTTP basic authentication: the API credential.
    pub username: String,
    /// The password of HTTP basic authentication.
    pub password: String,
    /// The JSON text to send, where the call sends any.
    pub body: Option<String>,
}

/// The mathematical value of a [`Request`].
pub struct RequestView {
    pub method: Method,
    pub url: Seq<char>,
    pub username: Seq<char>,
    pub password: Seq<char>,
    pub body: Option<Seq<char>>,
}

impl View for Request {
    type V = RequestView;

    open spec fn view(&self) -> RequestView {
        RequestView {
            method: self.method,
            url: self.url@,
            username: self.username@,
            password: self.password@,
            body: opt_text(self.body),
        }
    }
}

/// The request that the credential `token` makes of a verb, a URL and a body.
pub open spec fn request_as(
    token: Seq<char>,
    method: Method,
    url: Seq<char>,
    body: Option<Seq<char>>,
) -> RequestView {
    RequestView { method, url, username: token, password: "api_token"@, body }
}

impl Request {
    /// A request under the credential `token`, with the fixed password that the
    /// service expects beside it.
    pub fn new(token: &str, method: Method, url: String, body: Option<String>) -> (r: Request)
        ensures
            r@ == request_as(token@, method, url@, opt_text(body)),
    {
        Request {
            method,
            url,
            username: String::from_str(token),
            password: String::from_str("api_token"),
            body,
        }
    }
}

/// The address of the signed-in user's record.
pub open spec fn me_url_text() -> Seq<char> {
    "https://www.toggl.com/api/v8/me"@
}

/// The address of a workspace's projects.
pub open spec fn projects_url_text(wid: int) -> Seq<char> {
    "https://www.toggl.com/api/v8/workspaces/"@ + decimal_text(wid) + "/projects"@
}

/// The address of a workspace's clients.
pub open spec fn clients_url_text(wid: int) -> Seq<char> {
    "https://api.track.toggl.com/api/v8/workspaces/"@ + decimal_text(wid) + "/clients"@
}

/// The address of the time entries.
pub open spec fn time_entries_base_text() -> Seq<char> {
    "https://www.toggl.com/api/v8/time_entries"@
}

/// The address of one time entry.
pub open spec fn entry_url_text(id: int) -> Seq<char> {
    "https://www.toggl.com/api/v8/time_entries/"@ + decimal_text(id)
}

/// The address at which a time entry is stopped.
pub open spec fn stop_url_text(id: int) -> Seq<char> {
    "https://www.toggl.com/api/v8/time_entries/"@ + decimal_text(id) + "/stop"@
}

/// The address at which a time entry is started.
pub open spec fn start_url_text() -> Seq<char> {
    "https://www.toggl.com/api/v8/time_entries/start"@
}

/// The address of the running time entry.
pub open spec fn current_url_text() -> Seq<char> {
    "https://www.toggl.com/api/v8/time_entries/current"@
}

/// The address of the signed-in user's record.
pub fn me_url() -> (s: String)
    ensures
        s@ == me_url_text(),
{
    String::from_str("https://www.toggl.com/api/v8/me")
}

/// The address of a workspace's projects.
pub fn projects_url(wid: i64) -> (s: String)
    ensures
        s@ == projects_url_text(wid as int),
{
    let mut s = String::from_str("https://www.toggl.com/api/v8/workspaces/");
    let id = decimal(wid);
    s.append(id.as_str());
    s.append("/projects");
    s
}

/// The address of a workspace's clients.
pub fn clients_url(wid: i64) -> (s: String)
    ensures
        s@ == clients_url_text(wid as int),
{
    let mut s = String::from_str("https://api.track.toggl.com/api/v8/workspaces/");
    let id = decimal(wid);
    s.append(id.as_str());
    s.append("/clients");
    s
}

/// The address of one time entry.
pub fn entry_url(id: i64) -> (s: String)
    ensures
        s@ == entry_url_text(id as int),
{
    let mut s = String::from_str("https://www.toggl.com/api/v8/time_entries/");
    let id = decimal(id);
    s.append(id.as_str());
    s
}

/// The address at which a time entry is stopped.
pub fn stop_url(id: i64) -> (s: String)
    ensures
        s@ == stop_url_text(id as int),
{
    let mut s = String::from_str("https://www.toggl.com/api/v8/time_entries/");
    let id = decimal(id);
    s.append(id.as_str());
    s.append("/stop");
    s
}

/// The address at which a time entry is started.
pub fn start_url() -> (s: String)
    ensures
        s@ == start_url_text(),
{
    String::from_str("https://www.toggl.com/api/v8/time_entries/start")
}

/// The address of the running time entry.
pub fn current_url() -> (s: String)
    ensures
        s@ == current_url_text(),
{
    String::from_str("https://www.toggl.com/api/v8/time_entries/current")
}

/// The query parameters of a range of time entries: the start of the range under
/// `start_date` and its end under `end_date`, each where it is given, in that order.
pub open spec fn range_params(start: Option<Seq<char>>, end: Option<Seq<char>>) -> Seq<
    (Seq<char>, Seq<char>),
> {
    let first = match start {
        Some(s) => seq![("start_date"@, s)],
        None => seq![],
    };
    let second = match end {
        Some(e) => seq![("end_date"@, e)],
        None => seq![],
    };
    first + second
}

/// Builds the query parameters of a range from the texts of its bounds.
pub fn range_query(start: Option<String>, end: Option<String>) -> (r: Vec<(String, String)>)
    ensures
        params_text(r@) == range_params(opt_text(start), opt_text(end)),
{
    let mut params: Vec<(String, String)> = Vec::new();
    if let Some(s) = start {
        params.push((String::from_str("start_date"), s));
    }
    if let Some(e) = end {
        params.push((String::from_str("end_date"), e));
    }
    params
}

/// The RFC 3339 text of an optional bound; `None` where there is a bound without
/// such a text, `Some(None)` where there is no bound.
pub open spec fn bound_text(bound: Option<Timestamp>) -> Option<Option<Seq<char>>> {
    match bound {
        Some(t) => match rfc3339_text(t.secs as int, t.nanos as int) {
            Some(s) => Some(Some(s)),
            None => None,
        },
        None => Some(None),
    }
}

/// The address of the time entries within optional bounds.
pub open spec fn time_entries_url_text(start: Option<Timestamp>, end: Option<Timestamp>) -> Option<
    Seq<char>,
> {
    match (bound_text(start), bound_text(end)) {
        (Some(s), Some(e)) => url_with_params_text(time_entries_base_text(), range_params(s, e)),
        _ => None,
    }
}

/// The address of the time entries that lie between `start` and `end`, both
/// inclusive; a bound that is not given does not constrain. There is no address
/// where a bound has no RFC 3339 text or the URL cannot be made.
pub fn time_entries_url(start: Option<Timestamp>, end: Option<Timestamp>) -> (r: Option<String>)
    ensures
        opt_text(r) == time_entries_url_text(start, end),
{
    let first = match start {
        Some(t) => match rfc3339(t) {
            Some(s) => Some(s),
            None => {
                return None;
            },
        },
        None => None,
    };
    let second = match end {
        Some(t) => match rfc3339(t) {
            Some(s) => Some(s),
            None => {
                return None;
            },
        },
        None => None,
    };
    let params = range_query(first, second);
    url_with_params("https://www.toggl.com/api/v8/time_entries", &params)
}

} // verus!
