//! Posts, as stored in the database and returned by the API.
pub mod request;
pub mod response;

use vstd::prelude::*;

verus! {

/// A post as stored in the database and returned by the API.
///
/// `id` and `user_id` are the 128-bit values of UUIDs; `body` is absent where
/// the post was created without one; `created_at` counts the microseconds
/// since the Unix epoch, in UTC.
pub struct Post {
    pub id: u128,
    pub user_id: u128,
    pub title: String,
    pub body: Option<String>,
    pub created_at: i64,
}

} // verus!
