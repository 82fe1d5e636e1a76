use vstd::prelude::*;

verus! {

/// A registered user as the store holds it.
#[derive(Debug, Clone)]
pub struct User {
    pub id: i32,
    pub name: String,
    pub email: String,
    pub password_hash: String,
}

} // verus!
