use vstd::prelude::*;

verus! {

/// An access token and a refresh token issued together.
#[derive(Debug, Clone)]
pub struct TokenPair {
    pub access_token: String,
    pub refresh_token: String,
    /// Lifetime of the access token, in seconds.
    pub expires_in: u64,
}

} // verus!
