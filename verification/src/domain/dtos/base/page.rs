use vstd::prelude::*;

verus! {

/// What a page holds.
pub struct PageView<T> {
    pub items: Seq<T>,
    pub count: nat,
    pub limit: i64,
    pub has_next: bool,
    pub has_prev: bool,
    pub next_cursor: Option<i32>,
    pub prev_cursor: Option<i32>,
}

/// One page of results: its rows and the keyset metadata. It is not an HTTP
/// response; a controller turns it into one.
pub struct Page<T> {
    items: Vec<T>,
    /// Number of rows returned (`items.len()`).
    count: usize,
    /// The limit that was applied.
    limit: i64,
    /// Whether a next page exists.
    has_next: bool,
    /// Whether a previous page exists.
    has_prev: bool,
    /// Cursor of the next page.
    next_cursor: Option<i32>,
    /// Cursor of the previous page.
    prev_cursor: Option<i32>,
}

impl<T> View for Page<T> {
    type V = PageView<T>;

    closed spec fn view(&self) -> PageView<T> {
        PageView {
            items: self.items@,
            count: self.count as nat,
            limit: self.limit,
            has_next: self.has_next,
            has_prev: self.has_prev,
            next_cursor: self.next_cursor,
            prev_cursor: self.prev_cursor,
        }
    }
}

/// Every page counts its rows; an empty page carries no cursor, and a cursor
/// is only there when its page exists.
pub open spec fn page_wf<T>(p: PageView<T>) -> bool {
    &&& p.count == p.items.len()
    &&& p.items.len() == 0 ==> p.next_cursor is None && p.prev_cursor is None
    &&& !p.has_next ==> p.next_cursor is None
    &&& !p.has_prev ==> p.prev_cursor is None
}

impl<T> Page<T> {
    #[verifier::type_invariant]
    closed spec fn inv(self) -> bool {
        page_wf(self@)
    }

    /// Builds a page. An empty page never carries a cursor, and a cursor is
    /// dropped when its flag says there is no such page.
    pub fn of(
        items: Vec<T>,
        limit: i64,
        has_next: bool,
        has_prev: bool,
        next_cursor: Option<i32>,
        prev_cursor: Option<i32>,
    ) -> (r: Self)
        ensures
            r@.items == items@,
            r@.count == items@.len(),
            r@.limit == limit,
            r@.has_next == has_next,
            r@.has_prev == has_prev,
            r@.next_cursor == (if items@.len() == 0 || !has_next { None } else { next_cursor }),
            r@.prev_cursor == (if items@.len() == 0 || !has_prev { None } else { prev_cursor }),
    {
        let empty = items.len() == 0;
        let count = items.len();
        Page {
            items,
            count,
            limit,
            has_next,
            has_prev,
            next_cursor: if empty || !has_next { None } else { next_cursor },
            prev_cursor: if empty || !has_prev { None } else { prev_cursor },
        }
    }

    /// A page with no rows, no neighbours and no cursors.
    pub fn empty(limit: i64) -> (r: Self)
        ensures
            r@.items.len() == 0,
            r@.count == 0,
            r@.limit == limit,
            !r@.has_next,
            !r@.has_prev,
            r@.next_cursor is None,
            r@.prev_cursor is None,
    {
        Self::of(Vec::new(), limit, false, false, None, None)
    }

    /// Turns each row into another type, keeping all the metadata.
    pub fn map<R, F: Fn(T) -> R>(self, f: F) -> (r: Page<R>)
        requires
            forall|t: T| #[trigger] f.requires((t,)),
        ensures
            r@.items.len() == self@.items.len(),
            forall|i: int|
                0 <= i < self@.items.len() ==> f.ensures((self@.items[i],), #[trigger] r@.items[i]),
            r@.count == self@.count,
            r@.limit == self@.limit,
            r@.has_next == self@.has_next,
            r@.has_prev == self@.has_prev,
            r@.next_cursor == self@.next_cursor,
            r@.prev_cursor == self@.prev_cursor,
    {
        proof {
            use_type_invariant(&self);
        }
        let ghost old_items = self.items@;
        let mut out: Vec<R> = Vec::new();
        for item in it: self.items
            invariant
                forall|t: T| #[trigger] f.requires((t,)),
                it.seq() == old_items,
                out@.len() == it.index(),
                forall|i: int| 0 <= i < it.index() ==> f.ensures((old_items[i],), #[trigger] out@[i]),
        {
            out.push(f(item));
        }
        Page {
            items: out,
            count: self.count,
            limit: self.limit,
            has_next: self.has_next,
            has_prev: self.has_prev,
            next_cursor: self.next_cursor,
            prev_cursor: self.prev_cursor,
        }
    }

    pub fn items(&self) -> (r: &[T])
        ensures
            r@ == self@.items,
    {
        self.items.as_slice()
    }

    pub fn into_items(self) -> (r: Vec<T>)
        ensures
            r@ == self@.items,
    {
        self.items
    }

    pub fn count(&self) -> (r: usize)
        ensures
            r == self@.count,
            r == self@.items.len(),
    {
        proof {
            use_type_invariant(self);
        }
        self.count
    }

    pub fn limit(&self) -> (r: i64)
        ensures
            r == self@.limit,
    {
        self.limit
    }

    pub fn has_next(&self) -> (r: bool)
        ensures
            r == self@.has_next,
    {
        self.has_next
    }

    pub fn has_prev(&self) -> (r: bool)
        ensures
            r == self@.has_prev,
    {
        self.has_prev
    }

    pub fn next_cursor(&self) -> (r: Option<i32>)
        ensures
            r == self@.next_cursor,
            self@.items.len() == 0 ==> r is None,
            !self@.has_next ==> r is None,
    {
        proof {
            use_type_invariant(self);
        }
        self.next_cursor
    }

    pub fn prev_cursor(&self) -> (r: Option<i32>)
        ensures
            r == self@.prev_cursor,
            self@.items.len() == 0 ==> r is None,
            !self@.has_prev ==> r is None,
    {
        proof {
            use_type_invariant(self);
        }
        self.prev_cursor
    }
}

} // verus!
