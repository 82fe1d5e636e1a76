use vstd::prelude::*;

verus! {

/// Filters for listing users.
#[derive(Debug, Clone)]
pub struct UserRequest {
    pub name_contains: Option<String>,
    pub email_contains: Option<String>,
}

impl Default for UserRequest {
    fn default() -> (r: Self)
        ensures
            r.name_contains is None,
            r.email_contains is None,
    {
        UserRequest { name_contains: None, email_contains: None }
    }
}

} // verus!
