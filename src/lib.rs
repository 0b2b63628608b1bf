//! A typed client for a container engine's management API.
//!
//! The library decides what each call sends and what each reply means; the
//! exchange itself is carried out by whatever owns the connection, which
//! hands each reply back as an [`http::HttpResult`].
use vstd::prelude::*;
use vstd::string::*;

pub mod common;
pub mod containers;
pub mod error;
pub mod http;
pub mod images;
pub mod json;
pub mod networks;
pub mod secrets;
pub mod swarm;
pub mod tasks;
pub mod text;
pub mod volumes;

use containers::ContainersClient;
use http::{Method, Request};
use images::ImagesClient;
use networks::NetworksClient;
use secrets::SecretsClient;
use swarm::SwarmClient;
use tasks::TasksClient;
use volumes::VolumesClient;

verus! {

/// The root every request URL starts with, when nothing else is configured.
pub const DEFAULT_API_URL: &'static str = "http://v1.27/";

/// A client of one engine, known by the URL its API is reached at.
#[derive(Debug, Clone)]
pub struct Client {
    api_url: String,
}

impl Client {
    /// The root every request URL starts with.
    pub closed spec fn base(&self) -> Seq<char> {
        self.api_url@
    }

    pub fn new(api_url: &str) -> (c: Client)
        ensures
            c.base() == api_url@,
    {
        Client { api_url: String::from_str(api_url) }
    }

    pub fn from_env() -> (c: Client)
        ensures
            c.base() == DEFAULT_API_URL@,
    {
        Client::new(DEFAULT_API_URL)
    }

    /// The full URL of a path of the API.
    pub fn url(&self, path: &str) -> (r: String)
        ensures
            r@ == self.base() + path@,
    {
        let mut r = self.api_url.clone();
        r.append(path);
        r
    }

    /// A request for a path of the API.
    pub fn request(&self, method: Method, path: &str, payload: Option<String>, expected: u32) -> (r:
        Request)
        ensures
            r.method == method,
            r.url@ == self.base() + path@,
            r.payload == payload,
            r.expected == expected,
    {
        Request { method, url: self.url(path), payload, expected }
    }

    pub fn images(&self) -> (r: ImagesClient<'_>)
        ensures
            r.client() == self,
    {
        ImagesClient::new(self)
    }

    pub fn containers(&self) -> (r: ContainersClient<'_>)
        ensures
            r.client() == self,
    {
        ContainersClient::new(self)
    }

    pub fn swarm(&self) -> (r: SwarmClient<'_>)
        ensures
            r.client() == self,
    {
        SwarmClient::new(self)
    }

    pub fn networks(&self) -> (r: NetworksClient<'_>)
        ensures
            r.client() == self,
    {
        NetworksClient::new(self)
    }

    pub fn volumes(&self) -> (r: VolumesClient<'_>)
        ensures
            r.client() == self,
    {
        VolumesClient::new(self)
    }

    pub fn tasks(&self) -> (r: TasksClient<'_>)
        ensures
            r.client() == self,
    {
        TasksClient::new(self)
    }

    pub fn secrets(&self) -> (r: SecretsClient<'_>)
        ensures
            r.client() == self,
    {
        SecretsClient::new(self)
    }
}

} // verus!
