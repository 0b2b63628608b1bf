//! The swarm of the engine.
use vstd::prelude::*;

pub mod schema;

use crate::http::{Method, Request};
use crate::Client;

verus! {

/// Calls about the swarm of one engine.
pub struct SwarmClient<'a> {
    client: &'a Client,
}

impl<'a> SwarmClient<'a> {
    pub closed spec fn client(&self) -> &'a Client {
        self.client
    }

    pub fn new(client: &'a Client) -> (r: SwarmClient<'a>)
        ensures
            r.client() == client,
    {
        SwarmClient { client }
    }

    /// Inspects the swarm; the reply is read with [`crate::common::get`].
    pub fn get(&self) -> (r: Request)
        ensures
            r.describes(Method::Get, self.client().base() + "swarm"@, None, 200),
    {
        self.client.request(Method::Get, "swarm", None, 200)
    }
}

} // verus!
