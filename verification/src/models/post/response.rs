//! Response bodies of the /users/{user_id}/posts API.
use vstd::prelude::*;

verus! {

/// Response body returned after a post is created.
pub struct Created {
    pub id: u128,
}

} // verus!
