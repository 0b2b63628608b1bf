//! The tasks of the engine.
use vstd::prelude::*;

pub mod schema;

use crate::http::{Method, Request};
use crate::Client;

verus! {

/// Calls about the tasks of one engine.
pub struct TasksClient<'a> {
    client: &'a Client,
}

impl<'a> TasksClient<'a> {
    pub closed spec fn client(&self) -> &'a Client {
        self.client
    }

    pub fn new(client: &'a Client) -> (r: TasksClient<'a>)
        ensures
            r.client() == client,
    {
        TasksClient { client }
    }

    /// Lists every task; the reply is read with [`crate::common::get_vector`].
    pub fn get(&self) -> (r: Request)
        ensures
            r.describes(Method::Get, self.client().base() + "tasks"@, None, 200),
    {
        self.client.request(Method::Get, "tasks", None, 200)
    }
}

} // verus!
