//! The values one exchange with the engine is made of.
use vstd::prelude::*;

verus! {

/// The verb of a request.
#[derive(Debug, Clone, Copy, PartialEq, Eq, Structural)]
pub enum Method {
    Get,
    Post,
    Delete,
}

/// What the engine answered: the status code and the whole body as text.
#[derive(Debug, Clone)]
pub struct HttpResult {
    pub response_code: u32,
    pub body: String,
}

impl HttpResult {
    pub fn new(response_code: u32, body: String) -> (r: HttpResult)
        ensures
            r.response_code == response_code,
            r.body@ == body@,
    {
        HttpResult { response_code, body }
    }
}

/// One call to make: verb, full URL, JSON body if any, and the one status
/// code that counts as success.
#[derive(Debug, Clone)]
pub struct Request {
    pub method: Method,
    pub url: String,
    pub payload: Option<String>,
    pub expected: u32,
}

impl Request {
    /// The request is exactly this call.
    pub open spec fn describes(
        self,
        method: Method,
        url: Seq<char>,
        payload: Option<Seq<char>>,
        expected: u32,
    ) -> bool {
        &&& self.method == method
        &&& self.url@ == url
        &&& match payload {
            Some(p) => self.payload is Some && self.payload->0@ == p,
            None => self.payload is None,
        }
        &&& self.expected == expected
    }
}

} // verus!
