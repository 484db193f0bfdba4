//! Request payloads of the /users API.
use vstd::prelude::*;

verus! {

/// Input payload for creating a new user.
pub struct New {
    pub name: String,
    pub email: String,
}

/// Input payload for partially updating a user (RFC 7386 JSON Merge Patch).
///
/// Only the fields present in the request body are updated.
pub struct Patch {
    pub name: Option<String>,
}

} // verus!
