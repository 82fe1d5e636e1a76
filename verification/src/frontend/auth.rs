use vstd::prelude::*;

verus! {

/// Sign-in with email and password.
#[derive(Debug, Clone, PartialEq, Eq)]
pub struct LoginRequest {
    pub email: String,
    pub password: String,
}

/// First step of signing up: the details are sent and a confirmation code goes
/// to the email; the account becomes active after `VerifyEmailRequest`.
#[derive(Debug, Clone, PartialEq, Eq)]
pub struct RegisterRequest {
    pub first_name: String,
    pub last_name: String,
    pub email: String,
    pub password: String,
}

/// Second step: the code from the email.
#[derive(Debug, Clone, PartialEq, Eq)]
pub struct VerifyEmailRequest {
    pub email: String,
    pub code: String,
}

/// Asks for the code to be sent again.
#[derive(Debug, Clone, PartialEq, Eq)]
pub struct ResendCodeRequest {
    pub email: String,
}

/// The tokens the back end hands out on sign-in.
#[derive(Debug, Clone, PartialEq, Eq)]
pub struct AuthTokens {
    pub access_token: String,
    pub refresh_token: String,
}

} // verus!
