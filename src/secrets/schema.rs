//! The records that the engine sends and takes about its secrets.
//!
//! Every field is optional unless the engine always sends it.
use vstd::prelude::*;

use std::collections::HashMap;

use crate::tasks::schema::ObjectVersion;

verus! {

#[derive(Debug, Clone, Default)]
pub struct Secret {
    pub id: Option<String>,
    pub version: Option<ObjectVersion>,
    pub created_at: Option<String>,
    pub updated_at: Option<String>,
    pub spec: Option<SecretSpec>,
}

#[derive(Debug, Clone, Default)]
pub struct SecretSpec {
    /// User-defined name of the secret.
    pub name: Option<String>,
    /// User-defined key/value metadata.
    pub labels: Option<HashMap<String, String>>,
    /// Base64-url-safe-encoded secret data
    pub data: Option<String>,
}

} // verus!
