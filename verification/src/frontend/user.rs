use vstd::prelude::*;

verus! {

/// A user's profile as the front end shows it.
#[derive(Debug, Clone, PartialEq, Eq)]
pub struct User {
    pub id: i32,
    pub username: String,
    pub email: String,
}

} // verus!
