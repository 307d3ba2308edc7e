//! The position of the discovery: which page to ask for next, and whether
//! any is left.

use vstd::prelude::*;

verus! {

/// The request for one page of discovery records.
#[derive(Clone, Copy, Debug, PartialEq, Eq, Structural)]
pub struct PageRequest {
    /// How many records to skip.
    pub offset: usize,
    /// How many records to return at most.
    pub limit: usize,
}

/// A cursor, as the numbers it stands for.
pub struct CursorState {
    /// The number of records received so far, which is where the next page
    /// starts.
    pub offset: nat,
    pub page_size: nat,
    /// Whether a page came back shorter than `page_size`.
    pub exhausted: bool,
}

impl CursorState {
    /// The cursor before any page.
    pub open spec fn start(page_size: nat) -> CursorState {
        CursorState { offset: 0, page_size, exhausted: false }
    }

    /// The cursor after a page of `returned` records has come back.
    pub open spec fn after_page(self, returned: nat) -> CursorState {
        CursorState {
            offset: self.offset + returned,
            page_size: self.page_size,
            exhausted: returned < self.page_size,
        }
    }
}

/// The cursor of a paginated discovery.
///
/// It moves forward by the number of records that each page held, and is
/// exhausted by the first page shorter than the page size. A last page that
/// is exactly full therefore costs one more request, which comes back empty.
pub struct PageCursor {
    offset: usize,
    page_size: usize,
    exhausted: bool,
}

impl View for PageCursor {
    type V = CursorState;

    closed spec fn view(&self) -> CursorState {
        CursorState {
            offset: self.offset as nat,
            page_size: self.page_size as nat,
            exhausted: self.exhausted,
        }
    }
}

impl PageCursor {
    /// A cursor at the first record.
    pub fn new(page_size: usize) -> (cursor: Self)
        ensures
            cursor@ == CursorState::start(page_size as nat),
    {
        PageCursor { offset: 0, page_size, exhausted: false }
    }

    /// The number of records received so far.
    pub fn offset(&self) -> (offset: usize)
        ensures
            offset == self@.offset,
    {
        self.offset
    }

    pub fn page_size(&self) -> (page_size: usize)
        ensures
            page_size == self@.page_size,
    {
        self.page_size
    }

    pub fn is_exhausted(&self) -> (exhausted: bool)
        ensures
            exhausted == self@.exhausted,
    {
        self.exhausted
    }

    /// The page to ask for next, if any is left.
    pub fn next_request(&self) -> (request: Option<PageRequest>)
        ensures
            self@.exhausted ==> request is None,
            !self@.exhausted ==> request == Some(
                (PageRequest { offset: self@.offset as usize, limit: self@.page_size as usize }),
            ),
    {
        if self.exhausted {
            None
        } else {
            Some(PageRequest { offset: self.offset, limit: self.page_size })
        }
    }

    /// Whether a page of `returned` records can be counted within the range
    /// of `usize`.
    pub fn can_advance(&self, returned: usize) -> (fits: bool)
        ensures
            fits == (self@.offset + returned <= usize::MAX),
    {
        returned <= usize::MAX - self.offset
    }

    /// Takes note of a page of `returned` records.
    pub fn advance(&mut self, returned: usize)
        requires
            old(self)@.offset + returned <= usize::MAX,
        ensures
            final(self)@ == old(self)@.after_page(returned as nat),
    {
        self.offset = self.offset + returned;
        self.exhausted = returned < self.page_size;
    }
}

/// How many records a service that holds `total` of them returns when asked
/// for at most `limit` after the first `offset`.
pub open spec fn served(total: nat, offset: nat, limit: nat) -> nat {
    if offset >= total {
        0
    } else if total - offset < limit {
        (total - offset) as nat
    } else {
        limit
    }
}

/// The requests made and the records received from `cursor` on, against a
/// service that holds `total` records and serves them as [`served`] says.
pub open spec fn drain(cursor: CursorState, total: nat) -> (nat, nat)
    decreases total - cursor.offset,
    when cursor.page_size > 0
{
    if cursor.exhausted {
        (0, 0)
    } else {
        let returned = served(total, cursor.offset, cursor.page_size);
        if returned < cursor.page_size {
            (1, returned)
        } else {
            let rest = drain(cursor.after_page(returned), total);
            (rest.0 + 1, rest.1 + returned)
        }
    }
}

/// `n` divided by `d`, rounded up.
pub open spec fn ceil_div(n: nat, d: nat) -> nat
    recommends
        d > 0,
{
    ((n + d - 1) / (d as int)) as nat
}

proof fn lemma_drain_from(offset: nat, page_size: nat, total: nat)
    requires
        page_size > 0,
        offset <= total,
    ensures
        drain(CursorState { offset, page_size, exhausted: false }, total).0 == (total - offset)
            / (page_size as int) + 1,
        drain(CursorState { offset, page_size, exhausted: false }, total).1 == total - offset,
    decreases total - offset,
{
    let cursor = CursorState { offset, page_size, exhausted: false };
    let left = total - offset;
    let returned = served(total, offset, page_size);
    if returned < page_size {
        assert(returned == left);
        assert(left / (page_size as int) == 0) by (nonlinear_arith)
            requires
                0 <= left < page_size,
        ;
    } else {
        assert(returned == page_size);
        lemma_drain_from(offset + page_size, page_size, total);
        assert(cursor.after_page(returned) == CursorState {
            offset: offset + page_size,
            page_size,
            exhausted: false,
        });
        assert((left - page_size) / (page_size as int) + 1 == left / (page_size as int))
            by (nonlinear_arith)
            requires
                page_size > 0,
                left >= page_size,
        ;
    }
}

/// Against a service that holds `total` records, a discovery with pages of
/// `page_size` makes one request more than there are full pages, and
/// receives every record: that is `total / page_size` rounded up where the
/// last page is short, and one request more than that where `total` is a
/// multiple of `page_size`.
pub proof fn lemma_pagination_terminates(page_size: nat, total: nat)
    requires
        page_size > 0,
    ensures
        drain(CursorState::start(page_size), total).0 == total / page_size + 1,
        drain(CursorState::start(page_size), total).1 == total,
        total % page_size != 0 ==> drain(CursorState::start(page_size), total).0 == ceil_div(
            total,
            page_size,
        ),
        total % page_size == 0 ==> drain(CursorState::start(page_size), total).0 == ceil_div(
            total,
            page_size,
        ) + 1,
{
    lemma_drain_from(0, page_size, total);
    let p = page_size as int;
    let n = total as int;
    assert(n % p != 0 ==> (n + p - 1) / p == n / p + 1) by (nonlinear_arith)
        requires
            p > 0,
            n >= 0,
    ;
    assert(n % p == 0 ==> (n + p - 1) / p == n / p) by (nonlinear_arith)
        requires
            p > 0,
            n >= 0,
    ;
}

} // verus!
