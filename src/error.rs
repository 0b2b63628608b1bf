//! The ways a call can fail.
use vstd::prelude::*;

verus! {

/// serde_json's error, carried by a decoding failure as serde_json gave it.
#[verifier::external_type_specification]
#[verifier::external_body]
pub struct ExJsonError(serde_json::Error);

/// A failed call.
#[derive(Debug)]
pub enum DockerError {
    /// The engine refused the call; this is the `message` it gave.
    Docker(String),
    /// A body did not have the JSON shape it had to have.
    Json(serde_json::Error),
    /// The exchange itself broke off; raised by whatever carries it out.
    Transport(String),
}

} // verus!
