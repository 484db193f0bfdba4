//! Users, as stored in the database and returned by the API.
pub mod request;
pub mod response;

use vstd::prelude::*;

verus! {

/// A user as stored in the database and returned by the API.
///
/// `id` is the 128-bit value of the user's UUID; `created_at` counts the
/// microseconds since the Unix epoch, in UTC.
pub struct User {
    pub id: u128,
    pub name: String,
    pub email: String,
    pub created_at: i64,
}

} // verus!
