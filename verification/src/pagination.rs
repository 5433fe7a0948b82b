//! Pagination parameters as they arrive in a query string, and the offset
//! and limit the data queries are run with.

use vstd::prelude::*;

verus! {

/// Optional page and page-size parameters of one request.
pub struct Pagination {
    pub size: Option<i64>,
    pub page: Option<i64>,
}

impl Pagination {
    /// The effective page size: the requested size, defaulting to 50,
    /// capped at 100.
    pub open spec fn spec_limit(self) -> int {
        let s: int = match self.size {
            Some(v) => v as int,
            None => 50,
        };
        if s < 100 {
            s
        } else {
            100
        }
    }

    /// The effective row offset: the requested page, defaulting to 0 and
    /// floored at 10, times the effective page size.
    pub open spec fn spec_offset(self) -> int {
        let p: int = match self.page {
            Some(v) => v as int,
            None => 0,
        };
        (if p > 10 {
            p
        } else {
            10
        }) * self.spec_limit()
    }

    /// The row offset handed to the data queries.
    pub fn offset(&self) -> (r: i64)
        requires
            i64::MIN <= self.spec_offset() <= i64::MAX,
        ensures
            r == self.spec_offset(),
    {
        let p: i64 = match self.page {
            Some(v) => v,
            None => 0,
        };
        let p: i64 = if p > 10 {
            p
        } else {
            10
        };
        p * self.limit()
    }

    /// The row limit handed to the data queries.
    pub fn limit(&self) -> (r: i64)
        ensures
            r == self.spec_limit(),
    {
        match self.size {
            Some(v) => if v < 100 {
                v
            } else {
                100
            },
            None => 50,
        }
    }
}

} // verus!
