//! How a users listing request reads.
use vstd::prelude::*;

use crate::domain::dtos::base::pagination::Pagination;
use crate::domain::enums::direction::Direction;
use crate::domain::enums::sort_direction::SortDirection;

verus! {

/// The page a listing request asks for: `before_id` asks for the page before
/// that user; otherwise the page after `after_id` (the first page when there
/// is none). A `limit` of 0 asks for the default page size. Users are listed
/// by id, ascending.
pub fn list_request(after_id: Option<i32>, before_id: Option<i32>, limit: u32) -> (r: Pagination)
    ensures
        before_id matches Some(b) ==> r@.cursor == Some(b) && r@.direction == Direction::Prev,
        before_id is None ==> r@.cursor == after_id && r@.direction == Direction::Next,
        r@.size == (if limit == 0 { None } else { Some(limit) }),
        r@.column == "id"@,
        r@.sort == SortDirection::Asc,
{
    let (cursor, direction) = match before_id {
        Some(before) => (Some(before), Direction::Prev),
        None => (after_id, Direction::Next),
    };
    let size = if limit == 0 { None } else { Some(limit) };
    Pagination::new(cursor, size, direction)
}

} // verus!
