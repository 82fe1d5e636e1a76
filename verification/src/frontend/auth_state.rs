use vstd::prelude::*;

use super::auth::AuthTokens;

verus! {

/// The signed-in state of the front end: the tokens, if any.
pub struct AuthSession {
    tokens: Option<AuthTokens>,
}

impl AuthSession {
    /// The tokens held.
    pub closed spec fn tokens_view(&self) -> Option<AuthTokens> {
        self.tokens
    }

    /// Nobody is signed in.
    pub fn new() -> (r: Self)
        ensures
            r.tokens_view() is None,
    {
        AuthSession { tokens: None }
    }

    /// Whether tokens are held.
    pub fn is_logged_in(&self) -> (r: bool)
        ensures
            r == self.tokens_view() is Some,
    {
        self.tokens.is_some()
    }

    /// Keeps the tokens of a successful sign-in.
    pub fn set_tokens(&mut self, tokens: AuthTokens)
        ensures
            final(self).tokens_view() == Some(tokens),
    {
        self.tokens = Some(tokens);
    }

    /// Signs out.
    pub fn clear_tokens(&mut self)
        ensures
            final(self).tokens_view() is None,
    {
        self.tokens = None;
    }
}

} // verus!
