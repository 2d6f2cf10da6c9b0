//! Storage of a user's login info.

use vstd::prelude::*;

verus! {

/// A user that has access to the system. Used only as a comparison key by
/// the authorization gate; equality is exact match on both fields.
#[derive(Debug, Clone)]
pub struct User {
    /// The user's login username.
    pub username: String,
    /// The user's login password.
    pub password: String,
}

impl PartialEq for User {
    fn eq(&self, other: &User) -> (r: bool) {
        self.username == other.username && self.password == other.password
    }
}

impl vstd::std_specs::cmp::PartialEqSpecImpl for User {
    open spec fn obeys_eq_spec() -> bool {
        true
    }

    open spec fn eq_spec(&self, other: &User) -> bool {
        self.username@ == other.username@ && self.password@ == other.password@
    }
}

} // verus!
