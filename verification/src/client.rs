//! Clients: the customers that projects are billed against.

use crate::ident::Identified;
use vstd::prelude::*;
use vstd::std_specs::cmp::PartialEqSpec;

verus! {

/// A customer that projects may be billed against.
#[derive(Debug)]
pub struct Client {
    pub id: i64,
    pub name: String,
}

/// The mathematical value of a [`Client`].
pub struct ClientView {
    pub id: int,
    pub name: Seq<char>,
}

impl View for Client {
    type V = ClientView;

    open spec fn view(&self) -> ClientView {
        ClientView { id: self.id as int, name: self.name@ }
    }
}

impl PartialEq for Client {
    fn eq(&self, other: &Client) -> (r: bool) {
        self.id == other.id && self.name == other.name
    }
}

impl Eq for Client {

}

impl vstd::std_specs::cmp::PartialEqSpecImpl for Client {
    open spec fn obeys_eq_spec() -> bool {
        true
    }

    open spec fn eq_spec(&self, other: &Client) -> bool {
        self.id == other.id && self.name@ == other.name@
    }
}

impl Identified for Client {
    open spec fn ident(&self) -> int {
        self.id as int
    }

    fn id(&self) -> (r: i64) {
        self.id
    }
}

impl Client {
    /// A client with the given id and name.
    pub fn new(id: i64, name: String) -> (c: Client)
        ensures
            c.id == id,
            c.name == name,
    {
        Client { id, name }
    }
}

/// A session that holds the clients of its user's workspaces.
pub trait ClientTrait {
    /// Takes the clients that were fetched, workspace by workspace.
    fn fill_clients(&mut self, fetched: Vec<Vec<Client>>);
}

/// Two clients compare equal exactly when their values are the same.
pub proof fn lemma_client_eq_is_view_eq(a: Client, b: Client)
    ensures
        a.eq_spec(&b) <==> a@ == b@,
{
}

} // verus!
