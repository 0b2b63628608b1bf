//! The volumes of the engine.
use vstd::prelude::*;

pub mod schema;

use crate::http::{Method, Request};
use crate::Client;

verus! {

/// Calls about the volumes of one engine.
pub struct VolumesClient<'a> {
    client: &'a Client,
}

impl<'a> VolumesClient<'a> {
    pub closed spec fn client(&self) -> &'a Client {
        self.client
    }

    pub fn new(client: &'a Client) -> (r: VolumesClient<'a>)
        ensures
            r.client() == client,
    {
        VolumesClient { client }
    }

    /// Lists the volumes, with the warnings that came with them, as one record;
    /// the reply is read with [`crate::common::get`].
    pub fn get(&self) -> (r: Request)
        ensures
            r.describes(Method::Get, self.client().base() + "volumes"@, None, 200),
    {
        self.client.request(Method::Get, "volumes", None, 200)
    }
}

} // verus!
