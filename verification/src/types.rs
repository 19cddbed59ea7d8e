//! Time entries, raw as the service sends them and resolved against the populated
//! records, and the conversion from the one to the other and back.

use crate::client::{Client, ClientView};
use crate::ident::{
    first_with_id, ids, is_first_with_id, lemma_absent, lemma_first_at, lemma_first_with_id_none,
    opt_index, position_by_id,
};
use crate::project::{opt_int, Project, ProjectView};
use crate::share::share;
use crate::text::opt_text;
use crate::timestamp::Timestamp;
use crate::workspace::{Workspace, WorkspaceView};
use std::rc::Rc;
use vstd::prelude::*;
use vstd::std_specs::convert::FromSpec;

verus! {

/// The envelope in which the service hands out a single record.
#[derive(Debug)]
pub struct Return<T> {
    pub data: T,
}

/// The identifier under which other systems know a time entry: the 128 bits of a UUID.
#[derive(Clone, Copy, Debug, PartialEq, Eq, Structural)]
pub struct Guid(pub u128);

/// A time entry as the service sends it: workspace and project are named by id.
#[derive(Debug)]
pub struct TimeEntryInner {
    pub id: i64,
    pub guid: Guid,
    /// Workspace id
    pub wid: i64,
    /// Project id
    pub pid: Option<i64>,
    pub start: Timestamp,
    /// Absent while the entry is running.
    pub stop: Option<Timestamp>,
    pub duration: i64,
    pub description: Option<String>,
    pub duronly: bool,
    pub at: Timestamp,
}

/// The mathematical value of a [`TimeEntryInner`].
pub struct TimeEntryInnerView {
    pub id: int,
    pub guid: Guid,
    pub wid: int,
    pub pid: Option<int>,
    pub start: Timestamp,
    pub stop: Option<Timestamp>,
    pub duration: int,
    pub description: Option<Seq<char>>,
    pub duronly: bool,
    pub at: Timestamp,
}

impl View for TimeEntryInner {
    type V = TimeEntryInnerView;

    open spec fn view(&self) -> TimeEntryInnerView {
        TimeEntryInnerView {
            id: self.id as int,
            guid: self.guid,
            wid: self.wid as int,
            pid: opt_int(self.pid),
            start: self.start,
            stop: self.stop,
            duration: self.duration as int,
            description: opt_text(self.description),
            duronly: self.duronly,
            at: self.at,
        }
    }
}

/// A time entry with its workspace, project and client resolved to the shared records.
#[derive(Debug)]
pub struct TimeEntry {
    pub id: i64,
    pub guid: Guid,
    pub workspace: Rc<Workspace>,
    pub client: Option<Rc<Client>>,
    pub project: Option<Rc<Project>>,
    pub start: Timestamp,
    pub stop: Option<Timestamp>,
    pub duration: i64,
    pub description: Option<String>,
    pub duronly: bool,
    pub at: Timestamp,
}

/// The mathematical value of a [`TimeEntry`].
pub struct TimeEntryView {
    pub id: int,
    pub guid: Guid,
    pub workspace: WorkspaceView,
    pub client: Option<ClientView>,
    pub project: Option<ProjectView>,
    pub start: Timestamp,
    pub stop: Option<Timestamp>,
    pub duration: int,
    pub description: Option<Seq<char>>,
    pub duronly: bool,
    pub at: Timestamp,
}

/// The value of an optional shared client.
pub open spec fn opt_client(c: Option<Rc<Client>>) -> Option<ClientView> {
    match c {
        Some(c) => Some(c@),
        None => None,
    }
}

/// The value of an optional shared project.
pub open spec fn opt_project(p: Option<Rc<Project>>) -> Option<ProjectView> {
    match p {
        Some(p) => Some(p@),
        None => None,
    }
}

impl View for TimeEntry {
    type V = TimeEntryView;

    open spec fn view(&self) -> TimeEntryView {
        TimeEntryView {
            id: self.id as int,
            guid: self.guid,
            workspace: self.workspace@,
            client: opt_client(self.client),
            project: opt_project(self.project),
            start: self.start,
            stop: self.stop,
            duration: self.duration as int,
            description: opt_text(self.description),
            duronly: self.duronly,
            at: self.at,
        }
    }
}

/// Whether the project has the given id; no id matches no project.
pub fn project_cmp(p: &Project, tjsonid: Option<i64>) -> (r: bool)
    ensures
        r == (tjsonid == Some(p.id)),
{
    match tjsonid {
        Some(v) => v == p.id,
        None => false,
    }
}

/// Whether the client has the given id; no id matches no client.
pub fn client_cmp(c: &Client, tjsonid: Option<i64>) -> (r: bool)
    ensures
        r == (tjsonid == Some(c.id)),
{
    match tjsonid {
        Some(v) => v == c.id,
        None => false,
    }
}

/// The position of the first record with the given id, where an id is given.
pub open spec fn first_with_opt_id(ids: Seq<int>, id: Option<int>) -> Option<int> {
    match id {
        Some(v) => first_with_id(ids, v),
        None => None,
    }
}

/// The workspace that a workspace id stands for: the first with that id.
pub open spec fn resolved_workspace(workspaces: Seq<Rc<Workspace>>, wid: int) -> Option<
    Rc<Workspace>,
> {
    match first_with_id(ids(workspaces), wid) {
        Some(i) => Some(workspaces[i]),
        None => None,
    }
}

/// The project that an optional project id stands for: the first with that id, and
/// none where no id is given or no project has it.
pub open spec fn resolved_project(projects: Seq<Rc<Project>>, pid: Option<int>) -> Option<
    Rc<Project>,
> {
    match first_with_opt_id(ids(projects), pid) {
        Some(i) => Some(projects[i]),
        None => None,
    }
}

/// The client of a resolved project: the first client with the project's client id,
/// and none where there is no project, the project names no client, or no client
/// has that id.
pub open spec fn resolved_client(clients: Seq<Rc<Client>>, project: Option<Rc<Project>>) -> Option<
    Rc<Client>,
> {
    match project {
        Some(p) => match first_with_opt_id(ids(clients), opt_int(p.cid)) {
            Some(i) => Some(clients[i]),
            None => None,
        },
        None => None,
    }
}

/// The time entry that a raw entry stands for, given the populated collections.
pub open spec fn converted(
    clients: Seq<Rc<Client>>,
    projects: Seq<Rc<Project>>,
    workspaces: Seq<Rc<Workspace>>,
    raw: TimeEntryInnerView,
) -> TimeEntryView
    recommends
        resolved_workspace(workspaces, raw.wid) is Some,
{
    let project = resolved_project(projects, raw.pid);
    TimeEntryView {
        id: raw.id,
        guid: raw.guid,
        workspace: resolved_workspace(workspaces, raw.wid).unwrap()@,
        client: opt_client(resolved_client(clients, project)),
        project: opt_project(project),
        start: raw.start,
        stop: raw.stop,
        duration: raw.duration,
        description: raw.description,
        duronly: raw.duronly,
        at: raw.at,
    }
}

/// Linear search for the first project that `project_cmp` accepts.
pub fn find_project(projects: &[Rc<Project>], pid: Option<i64>) -> (r: Option<usize>)
    ensures
        opt_index(r) == first_with_opt_id(ids(projects@), opt_int(pid)),
{
    let n = projects.len();
    let mut i: usize = 0;
    while i < n
        invariant
            n == projects@.len(),
            i <= n,
            forall|j: int| 0 <= j < i ==> pid != Some(projects@[j].id),
        decreases n - i,
    {
        if project_cmp(&projects[i], pid) {
            proof {
                lemma_first_at(projects@, pid.unwrap(), i);
            }
            return Some(i);
        }
        i += 1;
    }
    proof {
        if pid is Some {
            lemma_absent(projects@, pid.unwrap());
        }
    }
    None
}

/// Linear search for the first client that `client_cmp` accepts.
pub fn find_client(clients: &[Rc<Client>], cid: Option<i64>) -> (r: Option<usize>)
    ensures
        opt_index(r) == first_with_opt_id(ids(clients@), opt_int(cid)),
{
    let n = clients.len();
    let mut i: usize = 0;
    while i < n
        invariant
            n == clients@.len(),
            i <= n,
            forall|j: int| 0 <= j < i ==> cid != Some(clients@[j].id),
        decreases n - i,
    {
        if client_cmp(&clients[i], cid) {
            proof {
                lemma_first_at(clients@, cid.unwrap(), i);
            }
            return Some(i);
        }
        i += 1;
    }
    proof {
        if cid is Some {
            lemma_absent(clients@, cid.unwrap());
        }
    }
    None
}

/// Whether a workspace with the given id is among `workspaces`.
pub fn has_workspace(workspaces: &[Rc<Workspace>], wid: i64) -> (r: bool)
    ensures
        r == (resolved_workspace(workspaces@, wid as int) is Some),
{
    position_by_id(workspaces, wid).is_some()
}

/// Converts a raw time entry into a time entry that shares the populated records.
///
/// The workspace must be among `workspaces`. A project id that is absent, or that
/// no project has, gives an entry without project and without client.
pub fn convert(
    clients: &[Rc<Client>],
    projects: &[Rc<Project>],
    workspaces: &[Rc<Workspace>],
    tjson: &TimeEntryInner,
) -> (r: TimeEntry)
    requires
        resolved_workspace(workspaces@, tjson@.wid) is Some,
    ensures
        r@ == converted(clients@, projects@, workspaces@, tjson@),
        r == resolved_entry(clients@, projects@, workspaces@, *tjson),
        tjson.pid is None ==> r.project is None,
        resolved_project(projects@, tjson@.pid) is None ==> r.project is None && r.client is None,
{
    let workspace = share(&workspaces[position_by_id(workspaces, tjson.wid).unwrap()]);
    let project = match find_project(projects, tjson.pid) {
        Some(i) => Some(share(&projects[i])),
        None => None,
    };
    let cid = match &project {
        Some(p) => p.cid,
        None => None,
    };
    let client = match find_client(clients, cid) {
        Some(i) => Some(share(&clients[i])),
        None => None,
    };
    let description = match &tjson.description {
        Some(s) => Some(s.clone()),
        None => None,
    };
    TimeEntry {
        id: tjson.id,
        guid: tjson.guid,
        workspace,
        client,
        project,
        start: tjson.start,
        stop: tjson.stop,
        duration: tjson.duration,
        description,
        duronly: tjson.duronly,
        at: tjson.at,
    }
}

/// The body of an update: the raw form of a time entry, to replace the service's
/// record of the same id.
#[derive(Debug)]
pub struct TimeEntryUpdate {
    pub time_entry: TimeEntryInner,
}

impl View for TimeEntryUpdate {
    type V = TimeEntryInnerView;

    open spec fn view(&self) -> TimeEntryInnerView {
        self.time_entry@
    }
}

/// The id of an optional shared project.
pub open spec fn opt_project_id(p: Option<Rc<Project>>) -> Option<i64> {
    match p {
        Some(p) => Some(p.id),
        None => None,
    }
}

/// The raw form of a time entry: the workspace and the project go back to their ids.
pub open spec fn raw_of(t: TimeEntry) -> TimeEntryInner {
    TimeEntryInner {
        id: t.id,
        guid: t.guid,
        wid: t.workspace.id,
        pid: opt_project_id(t.project),
        start: t.start,
        stop: t.stop,
        duration: t.duration,
        description: t.description,
        duronly: t.duronly,
        at: t.at,
    }
}

/// Takes a time entry back to its raw form.
pub fn into_raw(t: TimeEntry) -> (r: TimeEntryInner)
    ensures
        r == raw_of(t),
{
    let pid = match &t.project {
        Some(p) => Some(p.id),
        None => None,
    };
    TimeEntryInner {
        id: t.id,
        guid: t.guid,
        wid: t.workspace.id,
        pid,
        start: t.start,
        stop: t.stop,
        duration: t.duration,
        description: t.description,
        duronly: t.duronly,
        at: t.at,
    }
}

impl From<TimeEntry> for TimeEntryUpdate {
    fn from(t: TimeEntry) -> (r: TimeEntryUpdate) {
        TimeEntryUpdate { time_entry: into_raw(t) }
    }
}

/// The reply of the service that holds a time entry, or none.
pub type TimeEntryReturn = Return<Option<TimeEntryInner>>;

impl From<TimeEntry> for TimeEntryReturn {
    /// The reply that holds the time entry.
    fn from(t: TimeEntry) -> (r: TimeEntryReturn) {
        Return { data: Some(into_raw(t)) }
    }
}

impl vstd::std_specs::convert::FromSpecImpl<TimeEntry> for TimeEntryReturn {
    open spec fn obeys_from_spec() -> bool {
        true
    }

    open spec fn from_spec(t: TimeEntry) -> TimeEntryReturn {
        Return { data: Some(raw_of(t)) }
    }
}

impl vstd::std_specs::convert::FromSpecImpl<TimeEntry> for TimeEntryUpdate {
    open spec fn obeys_from_spec() -> bool {
        true
    }

    open spec fn from_spec(t: TimeEntry) -> TimeEntryUpdate {
        TimeEntryUpdate { time_entry: raw_of(t) }
    }
}

/// Everything that the conversion of one raw time entry needs: the populated
/// collections and the raw entry, whose workspace is among the workspaces.
pub struct TimeEntryWrapper<'a> {
    clients: &'a [Rc<Client>],
    projects: &'a [Rc<Project>],
    workspaces: &'a [Rc<Workspace>],
    tjson: &'a TimeEntryInner,
}

impl<'a> TimeEntryWrapper<'a> {
    #[verifier::type_invariant]
    spec fn workspace_is_known(self) -> bool {
        resolved_workspace(self.workspaces@, self.tjson@.wid) is Some
    }

    /// The clients to resolve against.
    pub closed spec fn clients(self) -> Seq<Rc<Client>> {
        self.clients@
    }

    /// The projects to resolve against.
    pub closed spec fn projects(self) -> Seq<Rc<Project>> {
        self.projects@
    }

    /// The workspaces to resolve against.
    pub closed spec fn workspaces(self) -> Seq<Rc<Workspace>> {
        self.workspaces@
    }

    /// The raw entry to convert.
    pub closed spec fn tjson(self) -> TimeEntryInner {
        *self.tjson
    }

    /// Puts together what a conversion needs. The workspace of the raw entry must be
    /// among the workspaces.
    pub fn new(
        clients: &'a [Rc<Client>],
        projects: &'a [Rc<Project>],
        workspaces: &'a [Rc<Workspace>],
        tjson: &'a TimeEntryInner,
    ) -> (r: Self)
        requires
            resolved_workspace(workspaces@, tjson@.wid) is Some,
        ensures
            r.clients() == clients@,
            r.projects() == projects@,
            r.workspaces() == workspaces@,
            r.tjson() == *tjson,
    {
        TimeEntryWrapper { clients, projects, workspaces, tjson }
    }
}

/// The time entry that a raw entry stands for, as a value that shares the records.
pub open spec fn resolved_entry(
    clients: Seq<Rc<Client>>,
    projects: Seq<Rc<Project>>,
    workspaces: Seq<Rc<Workspace>>,
    raw: TimeEntryInner,
) -> TimeEntry
    recommends
        resolved_workspace(workspaces, raw@.wid) is Some,
{
    let project = resolved_project(projects, raw@.pid);
    TimeEntry {
        id: raw.id,
        guid: raw.guid,
        workspace: resolved_workspace(workspaces, raw@.wid).unwrap(),
        client: resolved_client(clients, project),
        project,
        start: raw.start,
        stop: raw.stop,
        duration: raw.duration,
        description: raw.description,
        duronly: raw.duronly,
        at: raw.at,
    }
}

impl<'a> From<TimeEntryWrapper<'a>> for TimeEntry {
    fn from(value: TimeEntryWrapper<'a>) -> (r: TimeEntry)
        ensures
            r@ == converted(value.clients(), value.projects(), value.workspaces(), value.tjson()@),
    {
        proof {
            use_type_invariant(&value);
        }
        convert(value.clients, value.projects, value.workspaces, value.tjson)
    }
}

impl<'a> vstd::std_specs::convert::FromSpecImpl<TimeEntryWrapper<'a>> for TimeEntry {
    open spec fn obeys_from_spec() -> bool {
        true
    }

    open spec fn from_spec(value: TimeEntryWrapper<'a>) -> TimeEntry {
        resolved_entry(value.clients(), value.projects(), value.workspaces(), value.tjson())
    }
}

/// A raw entry without a project id converts to an entry without a project: no
/// project is ever made up for it.
pub proof fn lemma_no_project_id_gives_no_project(
    clients: Seq<Rc<Client>>,
    projects: Seq<Rc<Project>>,
    workspaces: Seq<Rc<Workspace>>,
    raw: TimeEntryInnerView,
)
    requires
        raw.pid is None,
    ensures
        converted(clients, projects, workspaces, raw).project is None,
        converted(clients, projects, workspaces, raw).client is None,
{
}

/// A raw entry whose project id no project has converts to an entry without a
/// project, and so without a client.
pub proof fn lemma_unmatched_project_id_gives_no_project(
    clients: Seq<Rc<Client>>,
    projects: Seq<Rc<Project>>,
    workspaces: Seq<Rc<Workspace>>,
    raw: TimeEntryInnerView,
)
    requires
        raw.pid is Some,
        forall|j: int| 0 <= j < projects.len() ==> projects[j].id != raw.pid.unwrap(),
    ensures
        converted(clients, projects, workspaces, raw).project is None,
        converted(clients, projects, workspaces, raw).client is None,
{
    assert forall|j: int| 0 <= j < ids(projects).len() implies ids(projects)[j]
        != raw.pid.unwrap() by {
        assert(ids(projects)[j] == projects[j].id);
    }
    lemma_first_with_id_none(ids(projects), raw.pid.unwrap());
}

/// A project id that some project has resolves to a project with that id, and a
/// workspace id likewise.
pub proof fn lemma_resolved_records_have_the_id(
    projects: Seq<Rc<Project>>,
    workspaces: Seq<Rc<Workspace>>,
    raw: TimeEntryInnerView,
)
    ensures
        resolved_workspace(workspaces, raw.wid) matches Some(w) ==> w.id == raw.wid,
        resolved_project(projects, raw.pid) matches Some(p) ==> Some(p.id as int) == raw.pid,
{
    if first_with_id(ids(workspaces), raw.wid) is Some {
        let i = first_with_id(ids(workspaces), raw.wid).unwrap();
        assert(is_first_with_id(ids(workspaces), raw.wid, i));
        assert(ids(workspaces)[i] == workspaces[i].id);
    }
    if raw.pid is Some && first_with_id(ids(projects), raw.pid.unwrap()) is Some {
        let i = first_with_id(ids(projects), raw.pid.unwrap()).unwrap();
        assert(is_first_with_id(ids(projects), raw.pid.unwrap(), i));
        assert(ids(projects)[i] == projects[i].id);
    }
}

/// Converting a raw entry and taking the update body of the result gives the raw
/// entry back: id, guid, workspace id, start, stop, duration, description and the
/// two other fields are the same, and so is the project id where a project has it.
/// A project id that no project has is the one thing lost: it comes back absent.
pub proof fn lemma_convert_then_update_round_trip(
    clients: Seq<Rc<Client>>,
    projects: Seq<Rc<Project>>,
    workspaces: Seq<Rc<Workspace>>,
    raw: TimeEntryInner,
)
    requires
        resolved_workspace(workspaces, raw@.wid) is Some,
    ensures
        ({
            let entry = resolved_entry(clients, projects, workspaces, raw);
            let back = TimeEntryUpdate::from_spec(entry);
            &&& back@.id == raw@.id
            &&& back@.guid == raw@.guid
            &&& back@.wid == raw@.wid
            &&& back@.start == raw@.start
            &&& back@.stop == raw@.stop
            &&& back@.duration == raw@.duration
            &&& back@.description == raw@.description
            &&& back@.duronly == raw@.duronly
            &&& back@.at == raw@.at
            &&& back@.pid == if resolved_project(projects, raw@.pid) is Some {
                raw@.pid
            } else {
                None
            }
            &&& resolved_project(projects, raw@.pid) is Some || raw@.pid is None ==> back@ == raw@
        }),
{
    lemma_resolved_records_have_the_id(projects, workspaces, raw@);
}

} // verus!
