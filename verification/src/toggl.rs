//! The session: the credential, the signed-in user, and the projects and clients of
//! the user's workspaces.

use crate::auth::{auth_error, auth_failure_message, LoginOutcome};
use crate::client::{Client, ClientTrait};
use crate::codec::status_line_text;
use crate::error::TogglError;
use crate::project::{Project, ProjectTrait};
use crate::request::{
    clients_url, clients_url_text, projects_url, projects_url_text, request_as, Method, Request,
};
use crate::text::{trim_end, trimmed_end};
use crate::user::{user_of, User};
use std::rc::Rc;
use vstd::prelude::*;

verus! {

/// A session with the service: the credential, the signed-in user, and the
/// projects and clients that were fetched for the user's workspaces.
#[derive(Debug)]
pub struct Toggl {
    /// The credential under which the session calls the service.
    pub api_token: String,
    /// Information of the user.
    pub user: User,
    /// All projects of the user's workspaces, once they are filled in.
    pub projects: Vec<Rc<Project>>,
    /// All clients of the user's workspaces, once they are filled in.
    pub clients: Vec<Rc<Client>>,
}

/// Sequences joined end to end, in their order.
pub open spec fn flattened<A>(parts: Seq<Seq<A>>) -> Seq<A>
    decreases parts.len(),
{
    if parts.len() == 0 {
        Seq::empty()
    } else {
        flattened(parts.drop_last()) + parts.last()
    }
}

/// What a sequence of vectors holds.
pub open spec fn parts_of<A>(fetched: Seq<Vec<A>>) -> Seq<Seq<A>> {
    Seq::new(fetched.len(), |i: int| fetched[i]@)
}

/// `shared` holds the records of `records`, one for one and in their order.
pub open spec fn shares<A>(shared: Seq<Rc<A>>, records: Seq<A>) -> bool {
    &&& shared.len() == records.len()
    &&& forall|k: int| 0 <= k < shared.len() ==> *shared[k] == records[k]
}

/// Puts the records of all the vectors into one collection of shared records:
/// vector after vector, each in its own order.
pub fn share_all<A>(fetched: Vec<Vec<A>>) -> (r: Vec<Rc<A>>)
    ensures
        shares(r@, flattened(parts_of(fetched@))),
{
    let ghost parts = parts_of(fetched@);
    let mut out: Vec<Rc<A>> = Vec::new();
    for part in it: fetched.into_iter()
        invariant
            it.seq() == fetched@,
            parts == parts_of(fetched@),
            shares(out@, flattened(parts.take(it.index() as int))),
    {
        let ghost i = it.index() as int;
        let ghost before = flattened(parts.take(i));
        let ghost items = part@;
        proof {
            assert(parts[i] == items);
            assert(parts.take(i + 1).drop_last() =~= parts.take(i));
            assert(parts.take(i + 1).last() == items);
        }
        for item in jt: part.into_iter()
            invariant
                jt.seq() == items,
                shares(out@, before + items.take(jt.index() as int)),
        {
            let ghost j = jt.index() as int;
            out.push(Rc::new(item));
            proof {
                assert(before + items.take(j + 1) =~= (before + items.take(j)).push(items[j]));
            }
        }
        proof {
            assert(items.take(items.len() as int) =~= items);
        }
    }
    proof {
        assert(parts.take(fetched@.len() as int) =~= parts);
    }
    out
}

/// The requests that fetch one thing for each of the given workspaces, in their
/// order: the request at `i` goes to the address that `url_of` gives the id of
/// the workspace at `i`.
pub open spec fn per_workspace(
    requests: Seq<Request>,
    token: Seq<char>,
    user: User,
    url_of: spec_fn(int) -> Seq<char>,
) -> bool {
    &&& requests.len() == user.workspaces@.len()
    &&& forall|i: int|
        0 <= i < requests.len() ==> (#[trigger] requests[i])@ == request_as(
            token,
            Method::Get,
            url_of(user.workspaces@[i].id as int),
            None,
        )
}

impl Toggl {
    /// Makes the session that a sign-in with `api_token` has led to, or says why
    /// there is none.
    ///
    /// An accepted sign-in gives a session for the user of the reply, under the
    /// credential without the white space at its end, with no projects and no
    /// clients yet. A refused one gives an authentication error that carries the
    /// status and the text of the reply; the status is an HTTP status code, of
    /// three digits. A failed transport gives its own error.
    pub fn authenticate_api_token(api_token: &str, outcome: LoginOutcome) -> (r: Result<
        Toggl,
        TogglError,
    >)
        requires
            outcome matches LoginOutcome::Refused { status, .. } ==> 100 <= status <= 999,
        ensures
            match outcome {
                LoginOutcome::Accepted(reply) => r matches Ok(t) && t.api_token@ == trimmed_end(
                    api_token@,
                ) && t.user@ == user_of(reply@) && t.projects@.len() == 0 && t.clients@.len()
                    == 0,
                LoginOutcome::Refused { status, text } => r matches Err(TogglError::AuthError(m))
                    && Some(m@) == auth_failure_text_of(status as int, text@),
                LoginOutcome::Failed(e) => r matches Err(TogglError::ReqwestError(f)) && f == e,
            },
    {
        match outcome {
            LoginOutcome::Accepted(reply) => Ok(
                Toggl {
                    api_token: trim_end(api_token),
                    user: User::from(reply),
                    projects: Vec::new(),
                    clients: Vec::new(),
                },
            ),
            LoginOutcome::Refused { status, text } => {
                match auth_error(status, text.as_str()) {
                    Some(e) => Err(e),
                    None => Err(TogglError::NotImplemented),
                }
            },
            LoginOutcome::Failed(e) => Err(TogglError::from(e)),
        }
    }

    /// Signs in, and says what to fetch next: the session that the sign-in has led
    /// to comes with the requests for the projects of the user's workspaces, whose
    /// replies `fill_projects` takes.
    pub fn init(api_token: &str, outcome: LoginOutcome) -> (r: Result<
        (Toggl, Vec<Request>),
        TogglError,
    >)
        requires
            outcome matches LoginOutcome::Refused { status, .. } ==> 100 <= status <= 999,
        ensures
            match outcome {
                LoginOutcome::Accepted(reply) => r matches Ok((t, requests)) && t.api_token@
                    == trimmed_end(api_token@) && t.user@ == user_of(reply@) && t.projects@.len()
                    == 0 && t.clients@.len() == 0 && per_workspace(
                    requests@,
                    t.api_token@,
                    t.user,
                    |wid: int| projects_url_text(wid),
                ),
                LoginOutcome::Refused { status, text } => r matches Err(TogglError::AuthError(m))
                    && Some(m@) == auth_failure_text_of(status as int, text@),
                LoginOutcome::Failed(e) => r matches Err(TogglError::ReqwestError(f)) && f == e,
            },
    {
        match Toggl::authenticate_api_token(api_token, outcome) {
            Ok(t) => {
                let requests = t.project_requests();
                Ok((t, requests))
            },
            Err(e) => Err(e),
        }
    }

    /// The requests that fetch the projects of the user's workspaces, one for each
    /// workspace in the order of the user's list.
    pub fn project_requests(&self) -> (r: Vec<Request>)
        ensures
            per_workspace(r@, self.api_token@, self.user, |wid: int| projects_url_text(wid)),
    {
        let mut out: Vec<Request> = Vec::new();
        let n = self.user.workspaces.len();
        let mut i: usize = 0;
        while i < n
            invariant
                n == self.user.workspaces@.len(),
                i <= n,
                out@.len() == i,
                forall|j: int|
                    0 <= j < i ==> (#[trigger] out@[j])@ == request_as(
                        self.api_token@,
                        Method::Get,
                        projects_url_text(self.user.workspaces@[j].id as int),
                        None,
                    ),
            decreases n - i,
        {
            let url = projects_url(self.user.workspaces[i].id);
            out.push(Request::new(self.api_token.as_str(), Method::Get, url, None));
            i += 1;
        }
        out
    }

    /// The requests that fetch the clients of the user's workspaces, one for each
    /// workspace in the order of the user's list.
    pub fn client_requests(&self) -> (r: Vec<Request>)
        ensures
            per_workspace(r@, self.api_token@, self.user, |wid: int| clients_url_text(wid)),
    {
        let mut out: Vec<Request> = Vec::new();
        let n = self.user.workspaces.len();
        let mut i: usize = 0;
        while i < n
            invariant
                n == self.user.workspaces@.len(),
                i <= n,
                out@.len() == i,
                forall|j: int|
                    0 <= j < i ==> (#[trigger] out@[j])@ == request_as(
                        self.api_token@,
                        Method::Get,
                        clients_url_text(self.user.workspaces@[j].id as int),
                        None,
                    ),
            decreases n - i,
        {
            let url = clients_url(self.user.workspaces[i].id);
            out.push(Request::new(self.api_token.as_str(), Method::Get, url, None));
            i += 1;
        }
        out
    }
}

/// The message of a sign-in refused with the given status and text; none where
/// the status is no HTTP status code.
pub open spec fn auth_failure_text_of(status: int, text: Seq<char>) -> Option<Seq<char>> {
    match status_line_text(status) {
        Some(line) => Some(auth_failure_message(line, text)),
        None => None,
    }
}

impl ProjectTrait for Toggl {
    /// Takes what was fetched for the workspaces, one vector for each in the order
    /// of the requests, as the session's projects.
    fn fill_projects(&mut self, fetched: Vec<Vec<Project>>)
        ensures
            shares(final(self).projects@, flattened(parts_of(fetched@))),
            final(self).api_token@ == old(self).api_token@,
            final(self).user == old(self).user,
            final(self).clients == old(self).clients,
    {
        self.projects = share_all(fetched);
    }
}

impl ClientTrait for Toggl {
    /// Takes what was fetched for the workspaces, one vector for each in the order
    /// of the requests, as the session's clients.
    fn fill_clients(&mut self, fetched: Vec<Vec<Client>>)
        ensures
            shares(final(self).clients@, flattened(parts_of(fetched@))),
            final(self).api_token@ == old(self).api_token@,
            final(self).user == old(self).user,
            final(self).projects == old(self).projects,
    {
        self.clients = share_all(fetched);
    }
}

} // verus!
