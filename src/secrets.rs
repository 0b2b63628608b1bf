//! The secrets of a swarm.
use vstd::prelude::*;
use vstd::string::*;

pub mod schema;

use crate::http::{Method, Request};
use crate::text::{decimal, int_text};
use crate::Client;

verus! {

/// The path of one secret.
pub open spec fn secret_path(id: Seq<char>) -> Seq<char> {
    "secrets/"@ + id
}

/// The path that updates one secret at a given version.
pub open spec fn update_path(id: Seq<char>, version: int) -> Seq<char> {
    "secrets/"@ + id + "/update?version="@ + int_text(version)
}

/// Calls about the secrets of one engine.
pub struct SecretsClient<'a> {
    client: &'a Client,
}

impl<'a> SecretsClient<'a> {
    pub closed spec fn client(&self) -> &'a Client {
        self.client
    }

    pub fn new(client: &'a Client) -> (r: SecretsClient<'a>)
        ensures
            r.client() == client,
    {
        SecretsClient { client }
    }

    /// Lists every secret; the reply is read with [`crate::common::get_vector`].
    pub fn all(&self) -> (r: Request)
        ensures
            r.describes(Method::Get, self.client().base() + "secrets"@, None, 200),
    {
        self.client.request(Method::Get, "secrets", None, 200)
    }

    /// Inspects one secret; the reply is read with [`crate::common::get`].
    pub fn inspect(&self, id: &String) -> (r: Request)
        ensures
            r.describes(Method::Get, self.client().base() + secret_path(id@), None, 200),
    {
        let path = secret_path_of(id);
        self.client.request(Method::Get, path.as_str(), None, 200)
    }

    /// Creates a secret from the JSON text of its spec; the reply, the new
    /// secret, is read with [`crate::common::post`].
    pub fn create(&self, spec: &str) -> (r: Request)
        ensures
            r.describes(Method::Post, self.client().base() + "secrets/create"@, Some(spec@), 201),
    {
        self.client.request(Method::Post, "secrets/create", Some(String::from_str(spec)), 201)
    }

    /// Replaces the spec of the secret at the given version with the JSON
    /// text given; the reply is read with [`crate::common::update`].
    pub fn update(&self, id: &String, spec: &str, version: i64) -> (r: Request)
        ensures
            r.describes(
                Method::Post,
                self.client().base() + update_path(id@, version as int),
                Some(spec@),
                200,
            ),
    {
        let mut path = secret_path_of(id);
        path.append("/update?version=");
        let v = decimal(version);
        path.append(v.as_str());
        self.client.request(Method::Post, path.as_str(), Some(String::from_str(spec)), 200)
    }

    /// Deletes one secret; the reply is read with [`crate::common::delete`].
    pub fn delete(&self, id: &String) -> (r: Request)
        ensures
            r.describes(Method::Delete, self.client().base() + secret_path(id@), None, 204),
    {
        let path = secret_path_of(id);
        self.client.request(Method::Delete, path.as_str(), None, 204)
    }
}

fn secret_path_of(id: &String) -> (r: String)
    ensures
        r@ == secret_path(id@),
{
    let mut path = String::from_str("secrets/");
    path.append(id.as_str());
    path
}

} // verus!
