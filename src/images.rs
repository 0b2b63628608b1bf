//! The images of the engine.
use vstd::prelude::*;

pub mod schema;

use crate::http::{Method, Request};
use crate::Client;

verus! {

/// Calls about the images of one engine.
pub struct ImagesClient<'a> {
    client: &'a Client,
}

impl<'a> ImagesClient<'a> {
    pub closed spec fn client(&self) -> &'a Client {
        self.client
    }

    pub fn new(client: &'a Client) -> (r: ImagesClient<'a>)
        ensures
            r.client() == client,
    {
        ImagesClient { client }
    }

    /// Lists every image; the reply is read with [`crate::common::get_vector`].
    pub fn all(&self) -> (r: Request)
        ensures
            r.describes(Method::Get, self.client().base() + "images/json"@, None, 200),
    {
        self.client.request(Method::Get, "images/json", None, 200)
    }
}

} // verus!
