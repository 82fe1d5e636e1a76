use vstd::prelude::*;

verus! {

/// Natural order of a listing.
#[derive(Debug, Clone, Copy, PartialEq, Eq, Structural)]
pub enum SortDirection {
    Asc,
    Desc,
}

impl Default for SortDirection {
    fn default() -> (r: Self)
        ensures
            r == SortDirection::Asc,
    {
        SortDirection::Asc
    }
}

} // verus!
