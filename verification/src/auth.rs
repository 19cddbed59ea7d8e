//! Signing in: the request, what the reply to it holds, and the error that a refused
//! sign-in becomes.

use crate::codec::{status_line, status_line_text};
use crate::error::TogglError;
use crate::request::{me_url, me_url_text, request_as, Method, Request};
use crate::text::{trim_end, trimmed_end};
use crate::workspace::{Workspace, WorkspaceView};
use vstd::prelude::*;

verus! {

/// The user as the service describes it in its reply to signing in.
#[derive(Debug)]
pub struct UserJSON {
    pub fullname: String,
    pub workspaces: Vec<Workspace>,
}

/// The mathematical value of a [`UserJSON`].
pub struct UserJSONView {
    pub fullname: Seq<char>,
    pub workspaces: Seq<WorkspaceView>,
}

/// The values of workspaces, in their order.
pub open spec fn workspace_views(workspaces: Seq<Workspace>) -> Seq<WorkspaceView> {
    Seq::new(workspaces.len(), |i: int| workspaces[i]@)
}

impl View for UserJSON {
    type V = UserJSONView;

    open spec fn view(&self) -> UserJSONView {
        UserJSONView { fullname: self.fullname@, workspaces: workspace_views(self.workspaces@) }
    }
}

/// The reply of the service to signing in.
#[derive(Debug)]
pub struct InitResponse {
    pub since: i64,
    pub data: UserJSON,
}

/// The mathematical value of an [`InitResponse`].
pub struct InitResponseView {
    pub since: int,
    pub data: UserJSONView,
}

impl View for InitResponse {
    type V = InitResponseView;

    open spec fn view(&self) -> InitResponseView {
        InitResponseView { since: self.since as int, data: self.data@ }
    }
}

/// What came of the request to sign in.
#[derive(Debug)]
pub enum LoginOutcome {
    /// No reply came, or the reply could not be read.
    Failed(reqwest::Error),
    /// The service replied with a status of success, and this is its reply.
    Accepted(InitResponse),
    /// The service replied with another status, and this text.
    Refused { status: u16, text: String },
}

/// The request that signs in with a credential: the credential without the white
/// space at its end is the user name.
pub fn login_request(api_token: &str) -> (r: Request)
    ensures
        r@ == request_as(trimmed_end(api_token@), Method::Get, me_url_text(), None),
{
    let token = trim_end(api_token);
    Request::new(token.as_str(), Method::Get, me_url(), None)
}

/// Whether an HTTP status reports success: the codes from 200 to 299 do.
pub open spec fn is_success(status: int) -> bool {
    200 <= status < 300
}

/// Whether the reply to signing in holds the user, which it does under a status
/// of success, or a text that says why not.
pub fn holds_user(status: u16) -> (r: bool)
    ensures
        r == is_success(status as int),
{
    200 <= status && status < 300
}

/// The message of a refused sign-in, made of the status as it is shown and of
/// the text of the reply.
pub open spec fn auth_failure_message(status: Seq<char>, text: Seq<char>) -> Seq<char> {
    "Authentication not succeded: Status "@ + status + ", Text "@ + text
}

/// Writes the message of a refused sign-in.
pub fn auth_failure_text(status: &str, text: &str) -> (m: String)
    ensures
        m@ == auth_failure_message(status@, text@),
{
    let mut m = String::from_str("Authentication not succeded: Status ");
    m.append(status);
    m.append(", Text ");
    m.append(text);
    m
}

/// The error that stands for a sign-in refused with the given status and text.
/// There is one for every HTTP status code, which has three digits, and none for
/// another number.
pub fn auth_error(status: u16, text: &str) -> (r: Option<TogglError>)
    ensures
        r is Some <==> 100 <= status <= 999,
        match status_line_text(status as int) {
            Some(line) => r matches Some(TogglError::AuthError(m)) && m@ == auth_failure_message(
                line,
                text@,
            ),
            None => r is None,
        },
{
    match status_line(status) {
        Some(line) => Some(TogglError::AuthError(auth_failure_text(line.as_str(), text))),
        None => None,
    }
}

} // verus!
