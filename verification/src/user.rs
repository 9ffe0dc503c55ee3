//! A user record and its construction and formatting helpers.

use vstd::prelude::*;
use vstd::string::StringExecFns;

verus! {

/// A user account record.
#[derive(Debug, Clone)]
pub struct User {
    pub username: String,
    pub email: String,
    pub sign_in_count: u64,
    pub active: bool,
}

impl User {
    /// Renders the record as `"<username>, <email>"`.
    pub fn format(&self) -> (r: String)
        ensures
            r@ == self.username@ + ", "@ + self.email@,
    {
        let b = self.username.clone().concat(", ").concat(self.email.as_str());
        b
    }
}

/// Builds an active user with a sign-in count of one.
pub fn build_user(email: String, username: String) -> (u: User)
    ensures
        u.email@ == email@,
        u.username@ == username@,
        u.active == true,
        u.sign_in_count == 1,
{
    User { email, username, active: true, sign_in_count: 1 }
}

} // verus!
