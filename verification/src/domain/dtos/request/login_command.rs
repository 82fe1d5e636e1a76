use vstd::prelude::*;

verus! {

/// A sign-in attempt with email and password.
#[derive(Debug, Clone)]
pub struct LoginCommand {
    pub email: String,
    pub password: String,
}

} // verus!
