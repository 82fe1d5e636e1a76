use vstd::prelude::*;

use crate::domain::dtos::base::page::{Page, PageView};
use crate::domain::dtos::base::pagination::{clamp_limit, Pagination, PaginationView};
use crate::domain::enums::direction::Direction;

verus! {

/// The rows kept from a query: at most one row past the limit is dropped.
pub open spec fn kept_rows<T>(rows: Seq<T>, limit: int) -> Seq<T> {
    if rows.len() > limit {
        rows.drop_last()
    } else {
        rows
    }
}

/// The rows of the page, in the natural order of the listing.
pub open spec fn page_rows<T>(rows: Seq<T>, p: PaginationView) -> Seq<T> {
    let kept = kept_rows(rows, clamp_limit(p.size));
    if p.direction.is_backward() {
        kept.reverse()
    } else {
        kept
    }
}

/// The query brought back more rows than fit on the page.
pub open spec fn has_more(rows_len: nat, p: PaginationView) -> bool {
    rows_len > clamp_limit(p.size)
}

/// The request continued from a cursor.
pub open spec fn came_from_cursor(p: PaginationView) -> bool {
    p.direction.uses_cursor() && p.cursor is Some
}

/// Whether a page exists after this one.
pub open spec fn page_has_next(rows_len: nat, p: PaginationView) -> bool {
    if p.direction.is_backward() {
        came_from_cursor(p)
    } else {
        has_more(rows_len, p)
    }
}

/// Whether a page exists before this one.
pub open spec fn page_has_prev(rows_len: nat, p: PaginationView) -> bool {
    if p.direction.is_backward() {
        has_more(rows_len, p)
    } else {
        came_from_cursor(p)
    }
}

/// `r` is the page made of the rows `rows` for the request `p`, the cursors
/// read with `key`: the rows kept in the natural order, their number, the
/// limit, the two flags, and a cursor on each side that has a page and a row
/// to read it from (the last row for the next page, the first for the
/// previous one).
pub open spec fn to_page_outcome<T, F: Fn(&T) -> i32>(rows: Seq<T>, p: PaginationView, key: F, r: PageView<T>) -> bool {
    &&& r.items == page_rows(rows, p)
    &&& r.count == r.items.len()
    &&& r.limit == clamp_limit(p.size)
    &&& r.has_next == page_has_next(rows.len(), p)
    &&& r.has_prev == page_has_prev(rows.len(), p)
    &&& (r.next_cursor is Some <==> r.has_next && r.items.len() > 0)
    &&& (r.prev_cursor is Some <==> r.has_prev && r.items.len() > 0)
    &&& (r.next_cursor matches Some(k) ==> key.ensures((&r.items.last(),), k))
    &&& (r.prev_cursor matches Some(k) ==> key.ensures((&r.items.first(),), k))
}

/// `key` gives one cursor per row.
pub open spec fn key_is_a_function<T, F: Fn(&T) -> i32>(key: F) -> bool {
    forall|t: &T, k1: i32, k2: i32| #[trigger] key.ensures((t,), k1) && #[trigger] key.ensures((t,), k2) ==> k1 == k2
}

/// The request reads the first page: `First`, or `Next` without a cursor.
pub open spec fn reads_first_page(p: PaginationView) -> bool {
    p.direction == Direction::First || (p.direction == Direction::Next && p.cursor is None)
}

/// The request reads the last page: `Last`, or `Prev` without a cursor.
pub open spec fn reads_last_page(p: PaginationView) -> bool {
    p.direction == Direction::Last || (p.direction == Direction::Prev && p.cursor is None)
}

/// Reverses a vector in place.
fn reverse_rows<T>(rows: Vec<T>) -> (r: Vec<T>)
    ensures
        r@ == rows@.reverse(),
{
    let ghost orig = rows@;
    let n = rows.len();
    let mut rest = rows;
    let mut out: Vec<T> = Vec::new();
    while rest.len() > 0
        invariant
            n == orig.len(),
            rest@ == orig.subrange(0, rest@.len() as int),
            out@.len() + rest@.len() == n,
            forall|i: int| 0 <= i < out@.len() ==> #[trigger] out@[i] == orig[n - 1 - i],
        decreases rest@.len(),
    {
        let x = rest.pop().unwrap();
        out.push(x);
    }
    assert(out@ =~= orig.reverse());
    out
}

/// Turns the rows a keyset query brought back (up to `limit + 1`) into a page:
/// drops the extra row, restores the natural order of a backward read, and
/// reads the cursors of the first and last rows with `cursor_key`.
pub fn to_page<T, F: Fn(&T) -> i32>(rows: Vec<T>, pagination: &Pagination, cursor_key: F) -> (r: Page<T>)
    requires
        forall|t: &T| #[trigger] cursor_key.requires((t,)),
    ensures
        to_page_outcome(rows@, pagination@, cursor_key, r@),
{
    let limit = pagination.clamped_limit();
    let direction = pagination.direction();
    let is_backward = match direction {
        Direction::Prev | Direction::Last => true,
        _ => false,
    };
    let uses_cursor = match direction {
        Direction::Next | Direction::Prev => true,
        _ => false,
    };
    let mut rows = rows;
    let has_more = rows.len() > limit as usize;
    if has_more {
        rows.pop();
    }
    let rows = if is_backward {
        reverse_rows(rows)
    } else {
        rows
    };
    let came_from_cursor = uses_cursor && pagination.cursor().is_some();
    let has_next = if is_backward {
        came_from_cursor
    } else {
        has_more
    };
    let has_prev = if is_backward {
        has_more
    } else {
        came_from_cursor
    };
    let n = rows.len();
    let next_cursor = if has_next && n > 0 {
        Some(cursor_key(&rows[n - 1]))
    } else {
        None
    };
    let prev_cursor = if has_prev && n > 0 {
        Some(cursor_key(&rows[0]))
    } else {
        None
    };
    Page::of(rows, limit, has_next, has_prev, next_cursor, prev_cursor)
}

/// A `Next` request without a cursor gives the same page as a `First`
/// request of the same size, whatever cursor that one carries.
pub proof fn next_without_cursor_is_first<T>(rows: Seq<T>, p: PaginationView, q: PaginationView)
    requires
        p.direction == Direction::Next,
        p.cursor is None,
        q.direction == Direction::First,
        q.size == p.size,
    ensures
        page_rows(rows, p) == page_rows(rows, q),
        page_has_next(rows.len(), p) == page_has_next(rows.len(), q),
        page_has_prev(rows.len(), p) == page_has_prev(rows.len(), q),
        !page_has_prev(rows.len(), p),
{
}

/// A `Prev` request without a cursor gives the same page as a `Last`
/// request of the same size, whatever cursor that one carries.
pub proof fn prev_without_cursor_is_last<T>(rows: Seq<T>, p: PaginationView, q: PaginationView)
    requires
        p.direction == Direction::Prev,
        p.cursor is None,
        q.direction == Direction::Last,
        q.size == p.size,
    ensures
        page_rows(rows, p) == page_rows(rows, q),
        page_has_next(rows.len(), p) == page_has_next(rows.len(), q),
        page_has_prev(rows.len(), p) == page_has_prev(rows.len(), q),
        !page_has_next(rows.len(), p),
{
}

/// `First` and `Last` ignore the cursor: two such requests that differ only in
/// their cursors give the same page.
pub proof fn edge_pages_ignore_cursor<T>(rows: Seq<T>, p: PaginationView, q: PaginationView)
    requires
        p.direction == Direction::First || p.direction == Direction::Last,
        q.direction == p.direction,
        q.size == p.size,
    ensures
        page_rows(rows, p) == page_rows(rows, q),
        page_has_next(rows.len(), p) == page_has_next(rows.len(), q),
        page_has_prev(rows.len(), p) == page_has_prev(rows.len(), q),
{
}

/// The first page has nothing before it, and the last page nothing after it.
pub proof fn edge_pages_have_one_neighbour_side<T>(rows: Seq<T>, p: PaginationView)
    ensures
        p.direction == Direction::First ==> !page_has_prev(rows.len(), p),
        p.direction == Direction::Last ==> !page_has_next(rows.len(), p),
{
}

/// When the query brings back at most one row past the limit (as it is asked
/// to), the page holds at most `limit` rows; a next page (forward) or a
/// previous page (backward) is announced exactly when the extra row came.
pub proof fn page_fits_limit<T>(rows: Seq<T>, p: PaginationView)
    requires
        rows.len() <= clamp_limit(p.size) + 1,
    ensures
        page_rows(rows, p).len() <= clamp_limit(p.size),
        page_rows(rows, p).len() == (if rows.len() > clamp_limit(p.size) { rows.len() - 1 } else { rows.len() as int }),
        !p.direction.is_backward() ==> (page_has_next(rows.len(), p) <==> rows.len() == clamp_limit(p.size) + 1),
        p.direction.is_backward() ==> (page_has_prev(rows.len(), p) <==> rows.len() == clamp_limit(p.size) + 1),
{
}

/// A backward page lists the rows it kept in reverse, so that the page reads
/// in the natural order; a forward page keeps the order of the query.
pub proof fn backward_pages_restore_natural_order<T>(rows: Seq<T>, p: PaginationView, i: int)
    requires
        0 <= i < page_rows(rows, p).len(),
    ensures
        p.direction.is_backward() ==> page_rows(rows, p)[i] == kept_rows(rows, clamp_limit(p.size))[
            page_rows(rows, p).len() - 1 - i
        ],
        !p.direction.is_backward() ==> page_rows(rows, p)[i] == rows[i],
{
}

/// Two requests of the same size for the first page (`First` with any
/// cursor, or `Next` without one) give the very same page from the same rows:
/// rows, count, limit, flags and cursors, when the cursor key gives one cursor
/// per row.
pub proof fn first_page_requests_agree<T, F: Fn(&T) -> i32>(
    rows: Seq<T>,
    p: PaginationView,
    q: PaginationView,
    key: F,
    r1: PageView<T>,
    r2: PageView<T>,
)
    requires
        reads_first_page(p),
        reads_first_page(q),
        p.size == q.size,
        key_is_a_function(key),
        to_page_outcome(rows, p, key, r1),
        to_page_outcome(rows, q, key, r2),
    ensures
        r1 == r2,
{
    assert(r1.items == r2.items);
    if r1.next_cursor is Some {
        assert(key.ensures((&r1.items.last(),), r1.next_cursor->0));
        assert(key.ensures((&r1.items.last(),), r2.next_cursor->0));
    }
    if r1.prev_cursor is Some {
        assert(key.ensures((&r1.items.first(),), r1.prev_cursor->0));
        assert(key.ensures((&r1.items.first(),), r2.prev_cursor->0));
    }
}

/// Two requests of the same size for the last page (`Last` with any cursor,
/// or `Prev` without one) give the very same page from the same rows, when
/// the cursor key gives one cursor per row.
pub proof fn last_page_requests_agree<T, F: Fn(&T) -> i32>(
    rows: Seq<T>,
    p: PaginationView,
    q: PaginationView,
    key: F,
    r1: PageView<T>,
    r2: PageView<T>,
)
    requires
        reads_last_page(p),
        reads_last_page(q),
        p.size == q.size,
        key_is_a_function(key),
        to_page_outcome(rows, p, key, r1),
        to_page_outcome(rows, q, key, r2),
    ensures
        r1 == r2,
{
    assert(r1.items == r2.items);
    if r1.next_cursor is Some {
        assert(key.ensures((&r1.items.last(),), r1.next_cursor->0));
        assert(key.ensures((&r1.items.last(),), r2.next_cursor->0));
    }
    if r1.prev_cursor is Some {
        assert(key.ensures((&r1.items.first(),), r1.prev_cursor->0));
        assert(key.ensures((&r1.items.first(),), r2.prev_cursor->0));
    }
}

} // verus!
