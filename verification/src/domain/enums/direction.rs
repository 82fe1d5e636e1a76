use vstd::prelude::*;

verus! {

/// Which page a keyset request asks for.
#[derive(Debug, Clone, Copy, PartialEq, Eq, Structural)]
pub enum Direction {
    /// The first page; a cursor, if given, is ignored.
    First,
    /// The page before the cursor; without a cursor it behaves like `Last`.
    Prev,
    /// The page after the cursor (the default); without a cursor it behaves like `First`.
    Next,
    /// The last page; a cursor, if given, is ignored.
    Last,
}

impl Direction {
    /// Rows are read against the natural order (towards the beginning).
    pub open spec fn is_backward(self) -> bool {
        self is Prev || self is Last
    }

    /// The cursor takes part in the query.
    pub open spec fn uses_cursor(self) -> bool {
        self is Next || self is Prev
    }
}

impl Default for Direction {
    fn default() -> (r: Self)
        ensures
            r == Direction::Next,
    {
        Direction::Next
    }
}

} // verus!
