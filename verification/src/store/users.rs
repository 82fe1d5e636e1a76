//! How a users listing request becomes a keyset query. Running the query is
//! the database's job; what to ask for is decided here.
use vstd::prelude::*;

use crate::domain::dtos::base::pagination::{clamp_limit, Pagination, PaginationView};
use crate::domain::enums::direction::Direction;
use crate::domain::enums::sort_direction::SortDirection;
use crate::domain::dtos::request::user_request::UserRequest;
use crate::store::helper::pagination::{kept_rows, page_rows, page_has_next, page_has_prev};
use vstd::string::StringExecFns;

verus! {

/// A bound on the keyset column.
#[derive(Debug, Clone, Copy, PartialEq, Eq)]
pub enum CursorFilter {
    /// Rows whose key is greater than the cursor.
    After(i32),
    /// Rows whose key is less than the cursor.
    Before(i32),
}

/// The query to run: the order of the key, the bound on it, and how many rows
/// to fetch (one more than the page, to learn whether another page exists).
#[derive(Debug, Clone, Copy, PartialEq, Eq)]
pub struct KeysetQuery {
    pub ascending: bool,
    pub filter: Option<CursorFilter>,
    pub fetch: i64,
}

/// The query for a request. A backward read (`Prev`, `Last`) fetches in the
/// order opposite to the natural one; `First` and `Last` ignore the cursor;
/// the cursor row itself is never fetched again.
pub open spec fn keyset_query_spec(p: PaginationView) -> KeysetQuery {
    let natural_asc = p.sort == SortDirection::Asc;
    let backward = p.direction.is_backward();
    KeysetQuery {
        ascending: backward != natural_asc,
        filter: if p.direction.uses_cursor() && p.cursor is Some {
            if natural_asc != backward {
                Some(CursorFilter::After(p.cursor->0))
            } else {
                Some(CursorFilter::Before(p.cursor->0))
            }
        } else {
            None
        },
        fetch: (clamp_limit(p.size) + 1) as i64,
    }
}

/// The keyset query for a listing request.
pub fn keyset_query(pagination: &Pagination) -> (r: KeysetQuery)
    ensures
        r == keyset_query_spec(pagination@),
{
    let limit = pagination.clamped_limit();
    let direction = pagination.direction();
    let backward = match direction {
        Direction::Prev | Direction::Last => true,
        _ => false,
    };
    let ignore_cursor = match direction {
        Direction::First | Direction::Last => true,
        _ => false,
    };
    let natural_asc = match pagination.sort() {
        SortDirection::Asc => true,
        SortDirection::Desc => false,
    };
    let filter = match pagination.cursor() {
        Some(c) if !ignore_cursor => {
            if natural_asc != backward {
                Some(CursorFilter::After(c))
            } else {
                Some(CursorFilter::Before(c))
            }
        },
        _ => None,
    };
    KeysetQuery { ascending: backward != natural_asc, filter, fetch: limit + 1 }
}

/// Keys in strictly increasing order, as a table's keyset column reads.
pub open spec fn strictly_increasing(all: Seq<i32>) -> bool {
    forall|i: int, j: int| 0 <= i < j < all.len() ==> all[i] < all[j]
}

/// Index of the first key greater than `c` (the length when there is none).
pub open spec fn first_above(all: Seq<i32>, c: i32) -> int
    decreases all.len(),
{
    if all.len() == 0 {
        0
    } else if all.last() <= c {
        all.len() as int
    } else {
        first_above(all.drop_last(), c)
    }
}

/// Index of the first key not less than `c` (the length when there is none).
pub open spec fn first_at_least(all: Seq<i32>, c: i32) -> int
    decreases all.len(),
{
    if all.len() == 0 {
        0
    } else if all.last() < c {
        all.len() as int
    } else {
        first_at_least(all.drop_last(), c)
    }
}

/// What the database gives for a keyset query on a table whose keys, in
/// increasing order, are `all`: the keys past the bound, in the asked order,
/// at most `fetch` of them.
pub open spec fn table_rows(all: Seq<i32>, q: KeysetQuery) -> Seq<i32> {
    let base = match q.filter {
        None => all,
        Some(CursorFilter::After(c)) => all.subrange(first_above(all, c), all.len() as int),
        Some(CursorFilter::Before(c)) => all.subrange(0, first_at_least(all, c)),
    };
    let ordered = if q.ascending {
        base
    } else {
        base.reverse()
    };
    if ordered.len() > q.fetch {
        ordered.take(q.fetch as int)
    } else {
        ordered
    }
}

/// The page a request gets from such a table.
pub open spec fn served_page(all: Seq<i32>, p: PaginationView) -> Seq<i32> {
    page_rows(table_rows(all, keyset_query_spec(p)), p)
}

proof fn lemma_first_above(all: Seq<i32>, c: i32)
    requires
        strictly_increasing(all),
    ensures
        0 <= first_above(all, c) <= all.len(),
        forall|i: int| 0 <= i < first_above(all, c) ==> all[i] <= c,
        forall|i: int| first_above(all, c) <= i < all.len() ==> all[i] > c,
    decreases all.len(),
{
    if all.len() > 0 {
        let front = all.drop_last();
        assert(strictly_increasing(front)) by {
            assert forall|i: int, j: int| 0 <= i < j < front.len() implies front[i] < front[j] by {
                assert(front[i] == all[i] && front[j] == all[j]);
            }
        }
        lemma_first_above(front, c);
        assert forall|i: int| 0 <= i < all.len() - 1 implies all[i] < all.last() by {
            assert(all[i] < all[all.len() - 1]);
        }
        assert forall|i: int| 0 <= i < front.len() implies front[i] == all[i] by {}
    }
}

proof fn lemma_first_at_least(all: Seq<i32>, c: i32)
    requires
        strictly_increasing(all),
    ensures
        0 <= first_at_least(all, c) <= all.len(),
        forall|i: int| 0 <= i < first_at_least(all, c) ==> all[i] < c,
        forall|i: int| first_at_least(all, c) <= i < all.len() ==> all[i] >= c,
    decreases all.len(),
{
    if all.len() > 0 {
        let front = all.drop_last();
        assert(strictly_increasing(front)) by {
            assert forall|i: int, j: int| 0 <= i < j < front.len() implies front[i] < front[j] by {
                assert(front[i] == all[i] && front[j] == all[j]);
            }
        }
        lemma_first_at_least(front, c);
        assert forall|i: int| 0 <= i < all.len() - 1 implies all[i] < all.last() by {
            assert(all[i] < all[all.len() - 1]);
        }
        assert forall|i: int| 0 <= i < front.len() implies front[i] == all[i] by {}
    }
}

proof fn lemma_key_positions(all: Seq<i32>, j: int)
    requires
        strictly_increasing(all),
        0 <= j < all.len(),
    ensures
        first_above(all, all[j]) == j + 1,
        first_at_least(all, all[j]) == j,
{
    lemma_first_above(all, all[j]);
    lemma_first_at_least(all, all[j]);
    let k = first_above(all, all[j]);
    if k < j + 1 {
        assert(all[j] > all[j]);
    }
    if k > j + 1 {
        assert(all[j + 1] <= all[j]);
    }
    let m = first_at_least(all, all[j]);
    if m < j {
        assert(all[m] >= all[j]);
    }
    if m > j {
        assert(all[j] < all[j]);
    }
}

/// On an ascending listing, the page after cursor `c` is the next `limit`
/// keys past `c`, and a next page is announced exactly when more keys follow.
pub proof fn next_page_is_the_following_keys(all: Seq<i32>, p: PaginationView, c: i32)
    requires
        strictly_increasing(all),
        p.direction == Direction::Next,
        p.cursor == Some(c),
        p.sort == SortDirection::Asc,
    ensures
        ({
            let after = all.subrange(first_above(all, c), all.len() as int);
            let lim = clamp_limit(p.size);
            &&& served_page(all, p) == (if after.len() > lim {
                after.take(lim)
            } else {
                after
            })
            &&& page_has_next(table_rows(all, keyset_query_spec(p)).len(), p) <==> after.len() > lim
        }),
{
    lemma_first_above(all, c);
    let after = all.subrange(first_above(all, c), all.len() as int);
    let lim = clamp_limit(p.size);
    let rows = table_rows(all, keyset_query_spec(p));
    if after.len() > lim + 1 {
        assert(rows == after.take(lim + 1));
        assert(rows.drop_last() =~= after.take(lim));
    } else if after.len() == lim + 1 {
        assert(rows == after);
        assert(rows.drop_last() =~= after.take(lim));
    }
}

/// Paging forward from the last key of a page gives the page that follows
/// the cursor that page ended at: a cursor and the last key before the same
/// position lead to the same next page.
pub proof fn forward_from_last_key_is_stable(all: Seq<i32>, p: PaginationView, c: i32, q: PaginationView)
    requires
        strictly_increasing(all),
        p.direction == Direction::Next,
        p.cursor == Some(c),
        p.sort == SortDirection::Asc,
        first_above(all, c) >= 1,
        q.direction == Direction::Next,
        q.cursor == Some(all[first_above(all, c) - 1]),
        q.sort == SortDirection::Asc,
        q.size == p.size,
    ensures
        served_page(all, q) == served_page(all, p),
{
    lemma_first_above(all, c);
    lemma_key_positions(all, first_above(all, c) - 1);
    next_page_is_the_following_keys(all, p, c);
    next_page_is_the_following_keys(all, q, all[first_above(all, c) - 1]);
}

/// Paging back undoes paging forward: if a full page ends at key `c` (the
/// `limit` keys up to `c`) and the page after `c` is not empty, the page
/// before that page's first key is the full page again.
pub proof fn back_after_forward_is_stable(all: Seq<i32>, p: PaginationView, c: i32, q: PaginationView)
    requires
        strictly_increasing(all),
        p.direction == Direction::Next,
        p.cursor == Some(c),
        p.sort == SortDirection::Asc,
        served_page(all, p).len() > 0,
        q.direction == Direction::Prev,
        q.cursor == Some(served_page(all, p)[0]),
        q.sort == SortDirection::Asc,
        q.size == p.size,
    ensures
        first_above(all, c) >= clamp_limit(p.size) ==> served_page(all, q) == all.subrange(
            first_above(all, c) - clamp_limit(p.size),
            first_above(all, c),
        ),
{
    lemma_first_above(all, c);
    next_page_is_the_following_keys(all, p, c);
    let a = first_above(all, c);
    let lim = clamp_limit(p.size);
    let f = served_page(all, p)[0];
    assert(f == all[a]);
    lemma_key_positions(all, a);
    assert(first_at_least(all, f) == a);
    if a >= lim {
        let before = all.subrange(0, a);
        let rows = table_rows(all, keyset_query_spec(q));
        if a > lim {
            assert(rows == before.reverse().take(lim + 1));
            assert(kept_rows(rows, lim) =~= before.reverse().take(lim));
            assert(kept_rows(rows, lim).reverse() =~= all.subrange(a - lim, a));
        } else {
            assert(rows == before.reverse());
            assert(kept_rows(rows, lim).reverse() =~= all.subrange(a - lim, a));
        }
    }
}


/// What the query asks of the table, case by case: always one row more than
/// the page size (so the page learns whether another page exists); `First`
/// and `Last` read from an end of the listing without a bound; `Next` and
/// `Prev` with a cursor read past it, away from the rows already seen;
/// without a cursor they read from the end they move away from.
pub proof fn keyset_query_cases(p: PaginationView)
    ensures
        keyset_query_spec(p).fetch == clamp_limit(p.size) + 1,
        1 <= clamp_limit(p.size) <= 50,
        p.direction == Direction::First ==> keyset_query_spec(p).filter is None && keyset_query_spec(p).ascending
            == (p.sort == SortDirection::Asc),
        p.direction == Direction::Last ==> keyset_query_spec(p).filter is None && keyset_query_spec(p).ascending
            == (p.sort == SortDirection::Desc),
        p.direction == Direction::Next && p.cursor is None ==> keyset_query_spec(p).filter is None
            && keyset_query_spec(p).ascending == (p.sort == SortDirection::Asc),
        p.direction == Direction::Prev && p.cursor is None ==> keyset_query_spec(p).filter is None
            && keyset_query_spec(p).ascending == (p.sort == SortDirection::Desc),
        p.direction == Direction::Next ==> (p.cursor matches Some(c) ==> if p.sort == SortDirection::Asc {
            keyset_query_spec(p).filter == Some(CursorFilter::After(c)) && keyset_query_spec(p).ascending
        } else {
            keyset_query_spec(p).filter == Some(CursorFilter::Before(c)) && !keyset_query_spec(p).ascending
        }),
        p.direction == Direction::Prev ==> (p.cursor matches Some(c) ==> if p.sort == SortDirection::Asc {
            keyset_query_spec(p).filter == Some(CursorFilter::Before(c)) && !keyset_query_spec(p).ascending
        } else {
            keyset_query_spec(p).filter == Some(CursorFilter::After(c)) && keyset_query_spec(p).ascending
        }),
{
}

/// On an ascending listing, the first page (`First`, or `Next` without a
/// cursor) is the first `limit` keys of the table; a next page is announced
/// exactly when more keys follow, and never a previous one.
pub proof fn first_page_is_the_first_keys(all: Seq<i32>, p: PaginationView)
    requires
        p.direction == Direction::First || (p.direction == Direction::Next && p.cursor is None),
        p.sort == SortDirection::Asc,
    ensures
        ({
            let lim = clamp_limit(p.size);
            let rows_len = table_rows(all, keyset_query_spec(p)).len();
            &&& served_page(all, p) == (if all.len() > lim {
                all.take(lim)
            } else {
                all
            })
            &&& page_has_next(rows_len, p) <==> all.len() > lim
            &&& !page_has_prev(rows_len, p)
        }),
{
    let lim = clamp_limit(p.size);
    let rows = table_rows(all, keyset_query_spec(p));
    if all.len() > lim + 1 {
        assert(rows == all.take(lim + 1));
        assert(rows.drop_last() =~= all.take(lim));
    } else if all.len() == lim + 1 {
        assert(rows == all);
        assert(rows.drop_last() =~= all.take(lim));
    }
}

/// On an ascending listing, the last page (`Last`, or `Prev` without a
/// cursor) is the last `limit` keys of the table, in increasing order; a
/// previous page is announced exactly when more keys come before them, and
/// never a next one.
pub proof fn last_page_is_the_last_keys(all: Seq<i32>, p: PaginationView)
    requires
        p.direction == Direction::Last || (p.direction == Direction::Prev && p.cursor is None),
        p.sort == SortDirection::Asc,
    ensures
        ({
            let lim = clamp_limit(p.size);
            let rows_len = table_rows(all, keyset_query_spec(p)).len();
            &&& served_page(all, p) == (if all.len() > lim {
                all.subrange(all.len() - lim, all.len() as int)
            } else {
                all
            })
            &&& page_has_prev(rows_len, p) <==> all.len() > lim
            &&& !page_has_next(rows_len, p)
        }),
{
    let lim = clamp_limit(p.size);
    let rows = table_rows(all, keyset_query_spec(p));
    if all.len() > lim + 1 {
        assert(rows == all.reverse().take(lim + 1));
        assert(kept_rows(rows, lim) =~= all.reverse().take(lim));
        assert(kept_rows(rows, lim).reverse() =~= all.subrange(all.len() - lim, all.len() as int));
    } else if all.len() == lim + 1 {
        assert(rows == all.reverse());
        assert(kept_rows(rows, lim) =~= all.reverse().take(lim));
        assert(kept_rows(rows, lim).reverse() =~= all.subrange(all.len() - lim, all.len() as int));
    } else {
        assert(rows == all.reverse());
        assert(all.reverse().reverse() =~= all);
    }
}

/// On an ascending listing, the page before cursor `c` is the `limit` keys
/// just below `c`, in increasing order; a previous page is announced exactly
/// when more keys come before them, and a next page always (the request came
/// from one).
pub proof fn previous_page_is_the_keys_before(all: Seq<i32>, p: PaginationView, c: i32)
    requires
        strictly_increasing(all),
        p.direction == Direction::Prev,
        p.cursor == Some(c),
        p.sort == SortDirection::Asc,
    ensures
        ({
            let at = first_at_least(all, c);
            let lim = clamp_limit(p.size);
            let rows_len = table_rows(all, keyset_query_spec(p)).len();
            &&& forall|i: int| 0 <= i < at ==> all[i] < c
            &&& forall|i: int| at <= i < all.len() ==> all[i] >= c
            &&& served_page(all, p) == (if at > lim {
                all.subrange(at - lim, at)
            } else {
                all.subrange(0, at)
            })
            &&& page_has_prev(rows_len, p) <==> at > lim
            &&& page_has_next(rows_len, p)
        }),
{
    lemma_first_at_least(all, c);
    let at = first_at_least(all, c);
    let lim = clamp_limit(p.size);
    let before = all.subrange(0, at);
    let rows = table_rows(all, keyset_query_spec(p));
    if at > lim + 1 {
        assert(rows == before.reverse().take(lim + 1));
        assert(kept_rows(rows, lim) =~= before.reverse().take(lim));
        assert(kept_rows(rows, lim).reverse() =~= all.subrange(at - lim, at));
    } else if at == lim + 1 {
        assert(rows == before.reverse());
        assert(kept_rows(rows, lim) =~= before.reverse().take(lim));
        assert(kept_rows(rows, lim).reverse() =~= all.subrange(at - lim, at));
    } else {
        assert(rows == before.reverse());
        assert(before.reverse().reverse() =~= before);
    }
}

/// A `LIKE` pattern that matches any text holding `s`: `s` between two `%`.
pub open spec fn contains_pattern(s: Seq<char>) -> Seq<char> {
    seq!['%'] + s + seq!['%']
}

/// The whole listing query: the keyset part, and the case-insensitive
/// `LIKE` patterns that the name and the email must match, where asked.
#[derive(Debug, Clone)]
pub struct UsersQuery {
    pub keyset: KeysetQuery,
    pub name_pattern: Option<String>,
    pub email_pattern: Option<String>,
}

/// The pattern for one optional filter.
fn filter_pattern(f: &Option<String>) -> (r: Option<String>)
    ensures
        r is Some <==> f is Some,
        f matches Some(t) ==> r->0@ == contains_pattern(t@),
{
    match f {
        Some(t) => {
            proof {
                reveal_strlit("%");
            }
            let out = String::from_str("%").concat(t.as_str()).concat("%");
            Some(out)
        },
        None => None,
    }
}

/// The query for listing users: the keyset query of the request, a name
/// filter `%n%` where `name_contains` is `n`, and an email filter `%e%`
/// where `email_contains` is `e`; a filter that was not asked for is absent.
pub fn users_query(pagination: &Pagination, params: &UserRequest) -> (r: UsersQuery)
    ensures
        r.keyset == keyset_query_spec(pagination@),
        r.name_pattern is Some <==> params.name_contains is Some,
        params.name_contains matches Some(n) ==> r.name_pattern->0@ == contains_pattern(n@),
        r.email_pattern is Some <==> params.email_contains is Some,
        params.email_contains matches Some(e) ==> r.email_pattern->0@ == contains_pattern(e@),
{
    UsersQuery {
        keyset: keyset_query(pagination),
        name_pattern: filter_pattern(&params.name_contains),
        email_pattern: filter_pattern(&params.email_contains),
    }
}

} // verus!
