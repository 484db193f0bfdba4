//! Response bodies of the /users API.
use vstd::prelude::*;

use crate::models::user::User;

verus! {

/// Response body returned after a user is created.
pub struct Created {
    pub id: u128,
}

/// Response body returned when `Prefer: return=representation` is set on PATCH.
///
/// Excludes internal fields (`created_at`) that clients should not see.
pub struct Patched {
    pub id: u128,
    pub name: String,
    pub email: String,
}

impl vstd::std_specs::convert::FromSpecImpl<&User> for Patched {
    open spec fn obeys_from_spec() -> bool {
        true
    }

    open spec fn from_spec(user: &User) -> Patched {
        Patched { id: user.id, name: user.name, email: user.email }
    }
}

impl From<&User> for Patched {
    /// The user's id, name and email.
    fn from(user: &User) -> (p: Patched) {
        Patched { id: user.id, name: user.name.clone(), email: user.email.clone() }
    }
}

} // verus!
