use vstd::prelude::*;

verus! {

/// What a JWT carries (RFC 7519 registered claims plus ours).
#[derive(Debug, Clone)]
pub struct Claims {
    /// Subject: the user id.
    pub sub: i32,
    pub username: String,
    pub roles: Vec<String>,
    /// Expiry (Unix seconds).
    pub exp: u64,
    /// Issued at (Unix seconds).
    pub iat: u64,
    /// `"access"` or `"refresh"`.
    pub token_type: String,
}

} // verus!
