//! Offset/limit pagination: page metadata and the cursor that decides when a
//! walk over a list endpoint is finished.

use vstd::prelude::*;

verus! {

/// The `Pagination` object carried by list responses.
#[derive(Debug, Clone, Copy)]
pub struct Pagination {
    pub limit: Option<i64>,
    pub offset: Option<i64>,
    pub total: Option<i64>,
    /// Number of items returned in this page (some endpoints report it).
    pub returned: Option<i64>,
    /// Whether further pages exist (some endpoints report it).
    pub has_more: Option<bool>,
}

impl Default for Pagination {
    fn default() -> (r: Self)
        ensures
            r.limit is None,
            r.offset is None,
            r.total is None,
            r.returned is None,
            r.has_more is None,
    {
        Pagination { limit: None, offset: None, total: None, returned: None, has_more: None }
    }
}

/// A single page of results plus its pagination metadata.
#[derive(Debug, Clone)]
pub struct Page<T> {
    pub items: Vec<T>,
    pub pagination: Option<Pagination>,
}

/// Implemented by list-operation output types so that a paginator can take
/// the items and the pagination metadata out of any of them.
pub trait Listing: Sized {
    /// The element type of the list.
    type Item;

    /// The items the response lists.
    spec fn listed(&self) -> Seq<Self::Item>;

    /// The pagination metadata the response carries.
    spec fn listed_pagination(&self) -> Option<Pagination>;

    /// Consume the response into a [`Page`].
    fn into_page(self) -> (r: Page<Self::Item>)
        ensures
            r.items@ == self.listed(),
            r.pagination == self.listed_pagination(),
    ;
}

/// Page size used by the `*_all` walks.
pub const DEFAULT_PAGE_SIZE: u32 = 50;

/// The server says more pages exist: `has_more` is `true`, or a `total` is
/// reported that the offset has not reached.
pub open spec fn more_promised(p: Option<Pagination>, offset: int) -> bool {
    match p {
        Some(p) => p.has_more == Some(true) || (p.total matches Some(t) && offset < t),
        None => false,
    }
}

/// The server says no page follows: `has_more` is `false`, or the offset has
/// reached the reported `total`.
pub open spec fn end_reported(p: Option<Pagination>, offset: int) -> bool {
    match p {
        Some(p) => p.has_more == Some(false) || (p.total matches Some(t) && offset >= t),
        None => false,
    }
}

/// Whether a walk ends after a page of `got` items, given the page size, the
/// offset reached after the page, and the page's metadata: after an empty
/// page, when the server reports the end, or after a short page that the
/// metadata does not contradict.
pub open spec fn page_ends(got: int, limit: int, offset: int, p: Option<Pagination>) -> bool {
    ||| got == 0
    ||| end_reported(p, offset)
    ||| (got < limit && !more_promised(p, offset))
}

/// The number of items a page counts for, saturated at `u32::MAX`.
pub open spec fn counted(len: nat) -> int {
    if len > u32::MAX { u32::MAX as int } else { len as int }
}

/// Shared offset-stepping state and stop logic for the paginators.
#[derive(Debug, Clone, Copy)]
pub struct Cursor {
    offset: u32,
    limit: u32,
    done: bool,
}

impl Cursor {
    /// The offset of the next page to fetch.
    pub closed spec fn spec_offset(self) -> u32 {
        self.offset
    }

    /// The page size.
    pub closed spec fn spec_limit(self) -> u32 {
        self.limit
    }

    /// Whether the walk is over.
    pub closed spec fn spec_done(self) -> bool {
        self.done
    }

    /// A cursor at offset 0 that fetches `limit` items per page.
    pub fn new(limit: u32) -> (r: Self)
        requires
            limit > 0,
        ensures
            r.spec_offset() == 0,
            r.spec_limit() == limit,
            !r.spec_done(),
    {
        Cursor { offset: 0, limit, done: false }
    }

    /// The offset of the next page to fetch.
    pub fn offset(&self) -> (r: u32)
        ensures
            r == self.spec_offset(),
    {
        self.offset
    }

    /// The page size.
    pub fn limit(&self) -> (r: u32)
        ensures
            r == self.spec_limit(),
    {
        self.limit
    }

    /// Whether the walk is over.
    pub fn is_done(&self) -> (r: bool)
        ensures
            r == self.spec_done(),
    {
        self.done
    }

    /// Mark the walk as over (after a failed fetch).
    pub fn finish(&mut self)
        ensures
            final(self).spec_done(),
            final(self).spec_offset() == old(self).spec_offset(),
            final(self).spec_limit() == old(self).spec_limit(),
    {
        self.done = true;
    }

    /// Apply a fetched page and return its items, updating the cursor.
    ///
    /// The offset moves past the page's items; the walk ends after an empty
    /// page, when the metadata reports the end, or after a short page that the
    /// metadata does not contradict. Once over, the walk stays over.
    pub fn advance<T>(&mut self, page: Page<T>) -> (r: Vec<T>)
        requires
            old(self).spec_offset() + counted(page.items@.len()) <= u32::MAX,
        ensures
            r@ == page.items@,
            final(self).spec_limit() == old(self).spec_limit(),
            final(self).spec_offset() == old(self).spec_offset() + counted(page.items@.len()),
            final(self).spec_done() == (old(self).spec_done() || page_ends(
                counted(page.items@.len()),
                old(self).spec_limit() as int,
                final(self).spec_offset() as int,
                page.pagination,
            )),
    {
        let len = page.items.len();
        let got: u32 = if len > 4294967295usize {
            4294967295u32
        } else {
            len as u32
        };
        self.offset = self.offset + got;
        let offset = self.offset as i64;
        let (reported_end, promised) = match page.pagination {
            Some(p) => {
                let end = match p.has_more {
                    Some(false) => true,
                    _ => match p.total {
                        Some(t) => offset >= t,
                        None => false,
                    },
                };
                let more = match p.has_more {
                    Some(true) => true,
                    _ => match p.total {
                        Some(t) => offset < t,
                        None => false,
                    },
                };
                (end, more)
            },
            None => (false, false),
        };
        if got == 0 || reported_end || (got < self.limit && !promised) {
            self.done = true;
        }
        page.items
    }
}

/// A walk makes progress: a page after which the cursor is still live moved
/// the offset forward by at least one item, and an empty page always ends
/// the walk. As the offset never passes `u32::MAX`, every walk ends.
pub proof fn law_live_cursor_advances(
    before_offset: u32,
    limit: u32,
    got: nat,
    p: Option<Pagination>,
)
    requires
        before_offset + counted(got) <= u32::MAX,
    ensures
        !page_ends(counted(got), limit as int, before_offset + counted(got), p) ==> before_offset
            + counted(got) > before_offset,
        page_ends(0, limit as int, before_offset as int, p),
{
}

/// The stop rule of a walk, field by field: after a page of `got` items
/// (with `offset` the position after it), the walk ends after an empty page,
/// when `has_more` is `false`, or when a reported `total` has been reached.
/// Otherwise it goes on when `has_more` is `true` or a reported `total` lies
/// ahead, and, without such metadata, exactly when the page was full: a full
/// page never ends the walk on its own, a short one does.
pub proof fn law_page_end_rule(got: int, limit: int, offset: int, p: Option<Pagination>)
    ensures
        got == 0 ==> page_ends(got, limit, offset, p),
        p is Some && p->0.has_more == Some(false) ==> page_ends(got, limit, offset, p),
        p is Some && p->0.total is Some && offset >= p->0.total->0 ==> page_ends(
            got,
            limit,
            offset,
            p,
        ),
        got > 0 && p is Some && p->0.has_more == Some(true) && !(p->0.total is Some && offset
            >= p->0.total->0) ==> !page_ends(got, limit, offset, p),
        got > 0 && p is Some && p->0.has_more != Some(false) && p->0.total is Some && offset
            < p->0.total->0 ==> !page_ends(got, limit, offset, p),
        got > 0 && got >= limit && (p is None || (p->0.has_more is None && p->0.total is None))
            ==> !page_ends(got, limit, offset, p),
        got > 0 && got < limit && (p is None || (p->0.has_more is None && p->0.total is None))
            ==> page_ends(got, limit, offset, p),
{
}

} // verus!
