use vstd::prelude::*;

verus! {

/// A validation failure on one field of a request.
#[derive(Debug, Clone)]
pub struct FieldError {
    pub field: &'static str,
    pub message: String,
}

impl View for FieldError {
    type V = (Seq<char>, Seq<char>);

    open spec fn view(&self) -> (Seq<char>, Seq<char>) {
        (self.field@, self.message@)
    }
}

} // verus!
