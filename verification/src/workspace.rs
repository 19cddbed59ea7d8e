//! Workspaces: the containers of projects, clients and time entries.

use crate::ident::Identified;
use vstd::prelude::*;
use vstd::std_specs::cmp::PartialEqSpec;

verus! {

/// A billing and organisational container for projects, clients and time entries.
#[derive(Debug)]
pub struct Workspace {
    pub id: i64,
    pub name: String,
}

/// The mathematical value of a [`Workspace`].
pub struct WorkspaceView {
    pub id: int,
    pub name: Seq<char>,
}

impl View for Workspace {
    type V = WorkspaceView;

    open spec fn view(&self) -> WorkspaceView {
        WorkspaceView { id: self.id as int, name: self.name@ }
    }
}

impl PartialEq for Workspace {
    fn eq(&self, other: &Workspace) -> (r: bool) {
        self.id == other.id && self.name == other.name
    }
}

impl Eq for Workspace {

}

impl vstd::std_specs::cmp::PartialEqSpecImpl for Workspace {
    open spec fn obeys_eq_spec() -> bool {
        true
    }

    open spec fn eq_spec(&self, other: &Workspace) -> bool {
        self.id == other.id && self.name@ == other.name@
    }
}

impl Workspace {
    /// A workspace with the given id and name.
    pub fn new(id: i64, name: String) -> (w: Workspace)
        ensures
            w.id == id,
            w.name == name,
    {
        Workspace { id, name }
    }
}

/// Two workspaces compare equal exactly when their values are the same.
pub proof fn lemma_workspace_eq_is_view_eq(a: Workspace, b: Workspace)
    ensures
        a.eq_spec(&b) <==> a@ == b@,
{
}

impl Identified for Workspace {
    open spec fn ident(&self) -> int {
        self.id as int
    }

    fn id(&self) -> (r: i64) {
        self.id
    }
}

} // verus!
