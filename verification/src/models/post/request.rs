//! Request payloads of the /users/{user_id}/posts API.
use vstd::prelude::*;

verus! {

/// Input payload for creating a post.
pub struct NewPayload {
    pub title: String,
    pub body: Option<String>,
}

/// A post to insert for the user `user_id`.
pub struct New {
    pub user_id: u128,
    pub title: String,
    pub body: Option<String>,
}

} // verus!
