//! Projects: billable or non-billable units of work within a workspace.

use crate::ident::Identified;
use vstd::prelude::*;
use vstd::std_specs::cmp::PartialEqSpec;

verus! {

/// A billable or non-billable unit of work within a workspace.
#[derive(Debug)]
pub struct Project {
    pub id: i64,
    pub name: String,
    pub billable: bool,
    pub active: bool,
    /// The client that the project is billed against, if any.
    pub cid: Option<i64>,
}

/// The mathematical value of a [`Project`].
pub struct ProjectView {
    pub id: int,
    pub name: Seq<char>,
    pub billable: bool,
    pub active: bool,
    pub cid: Option<int>,
}

/// An optional machine integer as an optional mathematical integer.
pub open spec fn opt_int(v: Option<i64>) -> Option<int> {
    match v {
        Some(n) => Some(n as int),
        None => None,
    }
}

impl View for Project {
    type V = ProjectView;

    open spec fn view(&self) -> ProjectView {
        ProjectView {
            id: self.id as int,
            name: self.name@,
            billable: self.billable,
            active: self.active,
            cid: opt_int(self.cid),
        }
    }
}

impl PartialEq for Project {
    fn eq(&self, other: &Project) -> (r: bool) {
        self.id == other.id && self.name == other.name && self.billable == other.billable
            && self.active == other.active && self.cid == other.cid
    }
}

impl Eq for Project {

}

impl vstd::std_specs::cmp::PartialEqSpecImpl for Project {
    open spec fn obeys_eq_spec() -> bool {
        true
    }

    open spec fn eq_spec(&self, other: &Project) -> bool {
        &&& self.id == other.id
        &&& self.name@ == other.name@
        &&& self.billable == other.billable
        &&& self.active == other.active
        &&& self.cid == other.cid
    }
}

impl Identified for Project {
    open spec fn ident(&self) -> int {
        self.id as int
    }

    fn id(&self) -> (r: i64) {
        self.id
    }
}

impl Project {
    /// A project with the given fields.
    pub fn new(id: i64, name: String, billable: bool, active: bool, cid: Option<i64>) -> (p:
        Project)
        ensures
            p.id == id,
            p.name == name,
            p.billable == billable,
            p.active == active,
            p.cid == cid,
    {
        Project { id, name, billable, active, cid }
    }
}

/// A session that holds the projects of its user's workspaces.
pub trait ProjectTrait {
    /// Takes the projects that were fetched, workspace by workspace.
    fn fill_projects(&mut self, fetched: Vec<Vec<Project>>);
}

/// Two projects compare equal exactly when their values are the same.
pub proof fn lemma_project_eq_is_view_eq(a: Project, b: Project)
    ensures
        a.eq_spec(&b) <==> a@ == b@,
{
}

} // verus!
