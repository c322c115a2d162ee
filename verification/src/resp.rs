//! The response envelope and paging types of the query service built on
//! top of the collector.

use vstd::prelude::*;

verus! {

/// An application status code: zero for success, the service's own codes
/// otherwise.
#[derive(Clone, Copy, Debug, PartialEq, Eq, Structural)]
pub struct AppCode(pub i32);

impl AppCode {
    /// The success code, 0.
    pub fn success() -> (c: AppCode)
        ensures
            c.0 == 0,
    {
        AppCode(0)
    }

    /// The catch-all server error code, 500.
    pub fn server_error() -> (c: AppCode)
        ensures
            c.0 == 500,
    {
        AppCode(500)
    }

    /// The database error code, 501.
    pub fn database_error() -> (c: AppCode)
        ensures
            c.0 == 501,
    {
        AppCode(501)
    }

    /// The invalid-arguments code, 510.
    pub fn invalid_arguments() -> (c: AppCode)
        ensures
            c.0 == 510,
    {
        AppCode(510)
    }
}

/// A response envelope: a code, a message, and the data on success.
#[derive(Debug)]
pub struct Resp<T> {
    /// The status code.
    pub code: AppCode,
    /// The status message; `ok` on success.
    pub message: String,
    /// The data, absent on failure.
    pub data: Option<T>,
}

impl<T> Resp<T> {
    /// A failure envelope: the given code and message, no data.
    pub fn new_failure(code: AppCode, message: String) -> (r: Resp<T>)
        ensures
            r.code == code,
            r.message == message,
            r.data is None,
    {
        Resp { code, message, data: None }
    }

    /// A success envelope: code 0, message `ok`, the data.
    pub fn new_success(data: T) -> (r: Resp<T>)
        ensures
            r.code.0 == 0,
            r.message@ == "ok"@,
            r.data == Some(data),
    {
        Resp { code: AppCode(0), message: String::from_str("ok"), data: Some(data) }
    }
}

/// One page of query results.
#[derive(Debug)]
pub struct Paginated<T> {
    /// Which page this is.
    pub page: Page,
    /// The rows of the page.
    pub list: Vec<T>,
}

/// Where a page stands.
#[derive(Clone, Copy, Debug, PartialEq, Eq, Structural)]
pub struct Page {
    /// The page number, counted from one.
    pub current: u64,
    /// How many pages there are, when known.
    pub max: Option<u64>,
    /// How many rows this page holds.
    pub size: u64,
}

/// Where to read in a query: page and page size, both counted from one.
#[derive(Clone, Copy, Debug, PartialEq, Eq, Structural)]
pub struct Cursor {
    /// The page to read, at least one.
    pub page: u64,
    /// Rows per page, at least one.
    pub size: u64,
}

impl Cursor {
    /// Both fields are positive.
    pub open spec fn wf(&self) -> bool {
        self.page >= 1 && self.size >= 1
    }

    /// The page a cursor starts on when none is named: the first.
    pub fn default_current_page() -> (p: u64)
        ensures
            p == 1,
    {
        1
    }

    /// The page size a cursor uses when none is named: twenty rows.
    pub fn default_page_size() -> (s: u64)
        ensures
            s == 20,
    {
        20
    }
}

/// How many pages `count` rows make at `size` rows per page: the
/// quotient, rounded up.
pub open spec fn spec_page_count(count: u64, size: u64) -> int
    recommends
        size >= 1,
{
    count / size + if count % size != 0 {
        1int
    } else {
        0int
    }
}

/// How many pages `count` rows make at `size` rows per page.
pub fn page_count(count: u64, size: u64) -> (r: u64)
    requires
        size >= 1,
    ensures
        r == spec_page_count(count, size),
{
    let q = count / size;
    if count % size != 0 {
        assert(count / size < u64::MAX) by (nonlinear_arith)
            requires
                size >= 1 && count % size != 0 && count <= u64::MAX,
        ;
        q + 1
    } else {
        q
    }
}

impl Cursor {
    /// How many rows the pages before this one hold: the query offset.
    pub fn offset(&self) -> (r: u64)
        requires
            self.wf(),
            (self.page - 1) * self.size <= u64::MAX,
        ensures
            r == (self.page - 1) * self.size,
    {
        (self.page - 1) * self.size
    }

    /// Whether this cursor reads inside a result of `max` pages: any
    /// cursor when there are no pages, else a page within them and a
    /// size of at most a thousand rows.
    pub fn in_range(&self, max: u64) -> (r: bool)
        ensures
            r == (max == 0 || (1 <= self.page <= max && 1 <= self.size <= 1000)),
    {
        max == 0 || (1 <= self.page && self.page <= max && 1 <= self.size && self.size <= 1000)
    }
}

impl Default for Cursor {
    /// The first page, twenty rows.
    fn default() -> (c: Cursor)
        ensures
            c.page == 1,
            c.size == 20,
            c.wf(),
    {
        Cursor { page: 1, size: 20 }
    }
}

} // verus!
