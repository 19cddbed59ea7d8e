//! The signed-in user.

use crate::auth::{InitResponse, InitResponseView};
use crate::workspace::{Workspace, WorkspaceView};
use std::rc::Rc;
use vstd::prelude::*;

verus! {

/// The signed-in user and the workspaces that the user belongs to.
#[derive(Debug)]
pub struct User {
    pub fullname: String,
    pub workspaces: Vec<Rc<Workspace>>,
}

/// The mathematical value of a [`User`].
pub struct UserView {
    pub fullname: Seq<char>,
    pub workspaces: Seq<WorkspaceView>,
}

/// The values of shared workspaces, in their order.
pub open spec fn shared_workspace_views(workspaces: Seq<Rc<Workspace>>) -> Seq<WorkspaceView> {
    Seq::new(workspaces.len(), |i: int| workspaces[i]@)
}

impl View for User {
    type V = UserView;

    open spec fn view(&self) -> UserView {
        UserView {
            fullname: self.fullname@,
            workspaces: shared_workspace_views(self.workspaces@),
        }
    }
}

/// The user that a reply to signing in describes: the name and the workspaces of
/// the reply, in the reply's order.
pub open spec fn user_of(reply: InitResponseView) -> UserView {
    UserView { fullname: reply.data.fullname, workspaces: reply.data.workspaces }
}

impl From<InitResponse> for User {
    fn from(i: InitResponse) -> (r: User)
        ensures
            r@ == user_of(i@),
    {
        let ghost given = i.data.workspaces@;
        let fullname = i.data.fullname;
        let mut workspaces: Vec<Rc<Workspace>> = Vec::new();
        for w in it: i.data.workspaces.into_iter()
            invariant
                it.seq() == given,
                workspaces@.len() == it.index(),
                forall|j: int| 0 <= j < it.index() ==> workspaces@[j] == given[j],
        {
            workspaces.push(Rc::new(w));
        }
        let r = User { fullname, workspaces };
        proof {
            assert(r@.workspaces =~= user_of(i@).workspaces);
        }
        r
    }
}

impl vstd::std_specs::convert::FromSpecImpl<InitResponse> for User {
    open spec fn obeys_from_spec() -> bool {
        false
    }

    open spec fn from_spec(i: InitResponse) -> User {
        choose|u: User| u@ == user_of(i@)
    }
}

} // verus!
