//! Types exchanged over the login endpoint.
use vstd::prelude::*;

verus! {

/// Name of the cookie that carries the authentication token.
pub const AUTH_COOKIE: &'static str = "user_token";

/// Login information.
pub struct LoginInfo {
    /// Username
    pub username: String,
}

impl LoginInfo {
    /// Whether this login can be accepted: the name must not be empty.
    pub open spec fn valid(&self) -> bool {
        self.username@.len() > 0
    }

    /// Validate the login info.
    #[must_use]
    pub fn is_valid(&self) -> (r: bool)
        ensures
            r == self.valid(),
    {
        !self.username.as_str().is_empty()
    }
}

/// Login response with the token for authentication.
pub struct LoginResponse {
    /// Login token
    pub token: String,
}

} // verus!
