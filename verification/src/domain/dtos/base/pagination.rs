use vstd::prelude::*;

use crate::domain::enums::direction::Direction;
use crate::domain::enums::sort_direction::SortDirection;

verus! {

/// A keyset pagination request. It only describes the intent; turning it into
/// a query is the store's job.
pub struct Pagination {
    pub cursor: Option<i32>,
    pub size: Option<u32>,
    pub direction: Direction,
    /// Keyset column, set on the server side with `on`.
    column: String,
    /// Natural order of the listing.
    sort: SortDirection,
}

/// Smallest page size a request can get.
pub const MIN_LIMIT: u32 = 1;

/// Page size used when the request names none.
pub const DEFAULT_LIMIT: u32 = 20;

/// Largest page size a request can get.
pub const MAX_LIMIT: u32 = 50;

/// The page size a request gets: its size, or the default, kept within
/// `MIN_LIMIT..=MAX_LIMIT`.
pub open spec fn clamp_limit(size: Option<u32>) -> int {
    let s: int = match size {
        Some(n) => n as int,
        None => DEFAULT_LIMIT as int,
    };
    if s < MIN_LIMIT {
        MIN_LIMIT as int
    } else if s > MAX_LIMIT {
        MAX_LIMIT as int
    } else {
        s
    }
}

/// What a pagination request holds.
pub struct PaginationView {
    pub cursor: Option<i32>,
    pub size: Option<u32>,
    pub direction: Direction,
    pub column: Seq<char>,
    pub sort: SortDirection,
}

impl View for Pagination {
    type V = PaginationView;

    closed spec fn view(&self) -> PaginationView {
        PaginationView {
            cursor: self.cursor,
            size: self.size,
            direction: self.direction,
            column: self.column@,
            sort: self.sort,
        }
    }
}

impl Pagination {
    pub const MIN_LIMIT: u32 = MIN_LIMIT;
    pub const DEFAULT_LIMIT: u32 = DEFAULT_LIMIT;
    pub const MAX_LIMIT: u32 = MAX_LIMIT;


    /// The page size, brought within the allowed range.
    pub fn clamped_limit(&self) -> (r: i64)
        ensures
            r == clamp_limit(self@.size),
            MIN_LIMIT <= r <= MAX_LIMIT,
    {
        let s: u32 = match self.size {
            Some(n) => n,
            None => DEFAULT_LIMIT,
        };
        let c: u32 = if s < MIN_LIMIT {
            MIN_LIMIT
        } else if s > MAX_LIMIT {
            MAX_LIMIT
        } else {
            s
        };
        c as i64
    }

    /// Sets the keyset column and the natural order on the server side; the
    /// client cannot choose them. Everything else in the request is kept.
    pub fn on(self, column: &str, sort: SortDirection) -> (r: Self)
        ensures
            r@.cursor == self@.cursor,
            r@.size == self@.size,
            r@.direction == self@.direction,
            r@.column == column@,
            r@.sort == sort,
    {
        Pagination { cursor: self.cursor, size: self.size, direction: self.direction, column: column.to_owned(), sort }
    }

    /// The cursor field (read through a method because the struct keeps
    /// other fields private).
    pub fn cursor(&self) -> (r: Option<i32>)
        ensures
            r == self@.cursor,
    {
        self.cursor
    }

    /// The requested size.
    pub fn size(&self) -> (r: Option<u32>)
        ensures
            r == self@.size,
    {
        self.size
    }

    /// The requested direction.
    pub fn direction(&self) -> (r: Direction)
        ensures
            r == self@.direction,
    {
        self.direction
    }

    pub fn column(&self) -> (r: &str)
        ensures
            r@ == self@.column,
    {
        self.column.as_str()
    }

    pub fn sort(&self) -> (r: &SortDirection)
        ensures
            *r == self@.sort,
    {
        &self.sort
    }

    /// A request on the `id` column in ascending order.
    pub fn new(cursor: Option<i32>, size: Option<u32>, direction: Direction) -> (r: Self)
        ensures
            r@.cursor == cursor,
            r@.size == size,
            r@.direction == direction,
            r@.column == "id"@,
            r@.sort == SortDirection::Asc,
    {
        Pagination { cursor, size, direction, column: "id".to_owned(), sort: SortDirection::Asc }
    }
}

impl Default for Pagination {
    /// No cursor, no size, the `Next` direction, on `id` ascending.
    fn default() -> (r: Self)
        ensures
            r@.cursor is None,
            r@.size is None,
            r@.direction == Direction::Next,
            r@.column == "id"@,
            r@.sort == SortDirection::Asc,
    {
        Pagination::new(None, None, Direction::Next)
    }
}

} // verus!
