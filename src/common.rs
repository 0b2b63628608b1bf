//! The reply side of every call: which status counts as success, what a
//! successful body must look like, and what a refusal carries.
use vstd::prelude::*;

use crate::error::DockerError;
use crate::http::HttpResult;
use crate::json::{check_json, decode_message, is_json, json_items, message_of, split_items, texts};

verus! {

/// What a reply comes to.
pub enum Outcome {
    /// A JSON document, handed on as it came, to be read as the record asked for.
    Payload(Seq<char>),
    /// The texts of the elements of a JSON array, in the order received.
    Items(Seq<Seq<char>>),
    /// Success with nothing to read.
    Done,
    /// The engine refused the call, with this message.
    Refused(Seq<char>),
    /// A body did not have the shape it had to have.
    Malformed,
    /// The exchange broke off, with this description.
    Broken(Seq<char>),
}

/// A reply whose status is not the one asked for.
pub open spec fn refusal(body: Seq<char>) -> Outcome {
    match message_of(body) {
        Some(m) => Outcome::Refused(m),
        None => Outcome::Malformed,
    }
}

/// A successful body that must be one JSON document.
pub open spec fn document(body: Seq<char>) -> Outcome {
    if is_json(body) {
        Outcome::Payload(body)
    } else {
        Outcome::Malformed
    }
}

/// A successful body that must be one JSON array.
pub open spec fn listing(body: Seq<char>) -> Outcome {
    match json_items(body) {
        Some(items) => Outcome::Items(items),
        None => Outcome::Malformed,
    }
}

/// Reading one record: success is status 200.
pub open spec fn fetch_one(code: u32, body: Seq<char>) -> Outcome {
    if code == 200 {
        document(body)
    } else {
        refusal(body)
    }
}

/// Reading a list of records: success is status 200.
pub open spec fn fetch_list(code: u32, body: Seq<char>) -> Outcome {
    if code == 200 {
        listing(body)
    } else {
        refusal(body)
    }
}

/// Sending a record and reading one back: success is the status the caller names.
pub open spec fn create(code: u32, wanted: u32, body: Seq<char>) -> Outcome {
    if code == wanted {
        document(body)
    } else {
        refusal(body)
    }
}

/// Sending a record with nothing to read back: success is the status the
/// caller names, whatever the body holds.
pub open spec fn change(code: u32, wanted: u32, body: Seq<char>) -> Outcome {
    if code == wanted {
        Outcome::Done
    } else {
        refusal(body)
    }
}

/// Deleting: success is status 204 and nothing else.
pub open spec fn removal(code: u32, body: Seq<char>) -> Outcome {
    if code == 204 {
        Outcome::Done
    } else {
        refusal(body)
    }
}

pub open spec fn error_outcome(e: DockerError) -> Outcome {
    match e {
        DockerError::Docker(m) => Outcome::Refused(m@),
        DockerError::Json(_) => Outcome::Malformed,
        DockerError::Transport(t) => Outcome::Broken(t@),
    }
}

pub open spec fn text_outcome(r: Result<String, DockerError>) -> Outcome {
    match r {
        Ok(s) => Outcome::Payload(s@),
        Err(e) => error_outcome(e),
    }
}

pub open spec fn list_outcome(r: Result<Vec<String>, DockerError>) -> Outcome {
    match r {
        Ok(v) => Outcome::Items(texts(v@)),
        Err(e) => error_outcome(e),
    }
}

pub open spec fn unit_outcome(r: Result<(), DockerError>) -> Outcome {
    match r {
        Ok(_) => Outcome::Done,
        Err(e) => error_outcome(e),
    }
}

/// The error that a reply with an unexpected status stands for: the engine's
/// `message`, or a decoding error where the body holds none.
pub fn failure(body: &str) -> (e: DockerError)
    ensures
        error_outcome(e) == refusal(body@),
{
    match decode_message(body) {
        Ok(message) => DockerError::Docker(message),
        Err(e) => DockerError::Json(e),
    }
}

/// A successful body that must be one JSON document, handed on unchanged.
fn document_of(body: String) -> (r: Result<String, DockerError>)
    ensures
        text_outcome(r) == document(body@),
{
    match check_json(body.as_str()) {
        Ok(()) => Ok(body),
        Err(e) => Err(DockerError::Json(e)),
    }
}

/// Reads the reply to a request for a list of records.
pub fn get_vector(response: HttpResult) -> (r: Result<Vec<String>, DockerError>)
    ensures
        list_outcome(r) == fetch_list(response.response_code, response.body@),
        response.response_code == 200 && response.body@ == "[]"@ ==> r is Ok && r->Ok_0@.len()
            == 0,
{
    if response.response_code == 200 {
        match split_items(response.body.as_str()) {
            Ok(items) => Ok(items),
            Err(e) => Err(DockerError::Json(e)),
        }
    } else {
        Err(failure(response.body.as_str()))
    }
}

/// Reads the reply to a request for one record.
pub fn get(response: HttpResult) -> (r: Result<String, DockerError>)
    ensures
        text_outcome(r) == fetch_one(response.response_code, response.body@),
{
    if response.response_code == 200 {
        document_of(response.body)
    } else {
        Err(failure(response.body.as_str()))
    }
}

/// Reads the reply to a request that sent a record and expects one back.
pub fn post(response: HttpResult, wanted_response: u32) -> (r: Result<String, DockerError>)
    ensures
        text_outcome(r) == create(response.response_code, wanted_response, response.body@),
{
    if response.response_code == wanted_response {
        document_of(response.body)
    } else {
        Err(failure(response.body.as_str()))
    }
}

/// Reads the reply to a request that sent a record and expects nothing back.
pub fn update(response: HttpResult, wanted_response: u32) -> (r: Result<(), DockerError>)
    ensures
        unit_outcome(r) == change(response.response_code, wanted_response, response.body@),
{
    if response.response_code == wanted_response {
        Ok(())
    } else {
        Err(failure(response.body.as_str()))
    }
}

/// Reads the reply to a delete request.
pub fn delete(response: HttpResult) -> (r: Result<(), DockerError>)
    ensures
        unit_outcome(r) == removal(response.response_code, response.body@),
{
    if response.response_code == 204 {
        Ok(())
    } else {
        Err(failure(response.body.as_str()))
    }
}

/// A reply whose status is not the success status of its operation, and whose
/// body is an object with a `message` string, is a refusal carrying that
/// message for every operation, never a success.
pub proof fn lemma_mismatch_is_refusal(code: u32, wanted: u32, body: Seq<char>)
    requires
        message_of(body) is Some,
    ensures
        code != 200 ==> fetch_one(code, body) == Outcome::Refused(message_of(body)->0),
        code != 200 ==> fetch_list(code, body) == Outcome::Refused(message_of(body)->0),
        code != wanted ==> create(code, wanted, body) == Outcome::Refused(message_of(body)->0),
        code != wanted ==> change(code, wanted, body) == Outcome::Refused(message_of(body)->0),
        code != 204 ==> removal(code, body) == Outcome::Refused(message_of(body)->0),
{
}

/// A reply with the success status whose body has the required shape is a
/// success that hands on the body's whole content: the document itself, or
/// every element of the array in order.
pub proof fn lemma_match_keeps_content(wanted: u32, body: Seq<char>)
    ensures
        is_json(body) ==> fetch_one(200, body) == Outcome::Payload(body),
        is_json(body) ==> create(wanted, wanted, body) == Outcome::Payload(body),
        json_items(body) is Some ==> fetch_list(200, body) == Outcome::Items(
            json_items(body)->0,
        ),
{
}

/// An update with the success status succeeds whatever its body holds, be it
/// no JSON at all.
pub proof fn lemma_update_ignores_body(wanted: u32, body: Seq<char>)
    ensures
        change(wanted, wanted, body) == Outcome::Done,
{
}

/// A delete succeeds exactly when the status is 204; a 200 is a failure.
pub proof fn lemma_delete_needs_no_content(code: u32, body: Seq<char>)
    ensures
        removal(code, body) == Outcome::Done <==> code == 204,
        removal(200, body) != Outcome::Done,
{
}

} // verus!
