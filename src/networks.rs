//! The networks of the engine.
use vstd::prelude::*;

pub mod schema;

use crate::http::{Method, Request};
use crate::Client;

verus! {

/// Calls about the networks of one engine.
pub struct NetworksClient<'a> {
    client: &'a Client,
}

impl<'a> NetworksClient<'a> {
    pub closed spec fn client(&self) -> &'a Client {
        self.client
    }

    pub fn new(client: &'a Client) -> (r: NetworksClient<'a>)
        ensures
            r.client() == client,
    {
        NetworksClient { client }
    }

    /// Lists every network; the reply is read with [`crate::common::get_vector`].
    pub fn all(&self) -> (r: Request)
        ensures
            r.describes(Method::Get, self.client().base() + "networks"@, None, 200),
    {
        self.client.request(Method::Get, "networks", None, 200)
    }
}

} // verus!
