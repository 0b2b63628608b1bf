//! The containers of the engine.
use vstd::prelude::*;

pub mod schema;

use crate::http::{Method, Request};
use crate::Client;

verus! {

/// Calls about the containers of one engine.
pub struct ContainersClient<'a> {
    client: &'a Client,
}

impl<'a> ContainersClient<'a> {
    pub closed spec fn client(&self) -> &'a Client {
        self.client
    }

    pub fn new(client: &'a Client) -> (r: ContainersClient<'a>)
        ensures
            r.client() == client,
    {
        ContainersClient { client }
    }

    /// Lists every container; the reply is read with [`crate::common::get_vector`].
    pub fn all(&self) -> (r: Request)
        ensures
            r.describes(Method::Get, self.client().base() + "containers/json"@, None, 200),
    {
        self.client.request(Method::Get, "containers/json", None, 200)
    }
}

} // verus!
