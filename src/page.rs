use vstd::prelude::*;

use crate::error::StoreError;
use crate::row::Table;

verus! {

/// One page of rows gathered from every queried table, with the number of
/// pages that the matching rows of all those tables fill.
#[derive(Debug)]
pub struct PaginatedResult {
    pub data: Vec<Table>,
    pub total_pages: u64,
}

/// `n / d` rounded up.
pub open spec fn ceil_div(n: nat, d: nat) -> nat
    recommends
        d > 0,
{
    if d == 0 {
        0
    } else {
        ((n + d - 1) as nat) / d
    }
}

/// `n`, held at `u64::MAX` when it is larger.
pub open spec fn capped(n: int) -> u64 {
    if n > u64::MAX {
        u64::MAX
    } else {
        n as u64
    }
}

/// What a table adds to the match total: its count, or nothing where
/// counting failed.
pub open spec fn count_or_zero(count: Option<u64>) -> int {
    match count {
        Some(c) => c as int,
        None => 0,
    }
}

/// The number of pages of `page_size` rows that `total` rows fill.
pub fn total_pages(total: u64, page_size: u32) -> (r: u64)
    requires
        page_size > 0,
    ensures
        r == ceil_div(total as nat, page_size as nat),
{
    let d = page_size as u64;
    let q = total / d;
    let m = total % d;
    proof {
        let n = total as int;
        let di = d as int;
        assert(n == di * (n / di) + n % di && 0 <= n % di < di) by (nonlinear_arith)
            requires
                di > 0,
        ;
        if m == 0 {
            assert((n + di - 1) / di == n / di) by (nonlinear_arith)
                requires
                    di > 0,
                    n == di * (n / di),
                    n >= 0,
            ;
        } else {
            assert((n + di - 1) / di == n / di + 1) by (nonlinear_arith)
                requires
                    di > 0,
                    n == di * (n / di) + n % di,
                    0 < n % di < di,
                    n >= 0,
            ;
            assert(n / di < 0xffff_ffff_ffff_ffff) by (nonlinear_arith)
                requires
                    di > 0,
                    n == di * (n / di) + n % di,
                    0 < n % di,
                    n <= 0xffff_ffff_ffff_ffff,
                    n / di >= 0,
            ;
        }
    }
    if m == 0 {
        q
    } else {
        q + 1
    }
}

/// The number of rows that come before page `page` (counted from 1) when a
/// page holds `page_size` rows; a zero page or page size is rejected.
pub fn page_offset(page: u32, page_size: u32) -> (r: Result<u64, StoreError>)
    ensures
        (page == 0 || page_size == 0) <==> r == Err::<u64, StoreError>(StoreError::Validation),
        (page > 0 && page_size > 0) ==> r == Ok::<u64, StoreError>(
            ((page - 1) * page_size) as u64,
        ),
{
    if page == 0 || page_size == 0 {
        return Err(StoreError::Validation);
    }
    let p = (page - 1) as u64;
    let s = page_size as u64;
    proof {
        assert(p * s <= 0xffff_ffff * 0xffff_ffff) by (nonlinear_arith)
            requires
                p <= 0xffff_ffff,
                s <= 0xffff_ffff,
        ;
    }
    Ok(p * s)
}

/// A page numbered past the last page starts after every matching row:
/// its offset is at least the total number of matching rows, so no table,
/// whose own matches are part of that total, has a row left to give.
pub proof fn lemma_page_past_end_is_empty(total: u64, page: u32, page_size: u32)
    requires
        page_size > 0,
        page > ceil_div(total as nat, page_size as nat),
    ensures
        (page - 1) * page_size >= total,
{
    let n = total as int;
    let d = page_size as int;
    let c = ceil_div(total as nat, page_size as nat) as int;
    assert(c == (n + d - 1) / d);
    assert(c * d >= n) by (nonlinear_arith)
        requires
            d > 0,
            n >= 0,
            c == (n + d - 1) / d,
    ;
    assert((page - 1) * d >= c * d) by (nonlinear_arith)
        requires
            page - 1 >= c,
            d > 0,
    ;
}

/// Gathers the rows and the match counts of the queried tables, in the order
/// the tables are visited.
pub struct PageBuilder {
    pub data: Vec<Table>,
    pub total: u64,
}

impl PageBuilder {
    /// A builder that has seen no table yet.
    pub fn new() -> (r: PageBuilder)
        ensures
            r.data@.len() == 0,
            r.total == 0,
    {
        PageBuilder { data: Vec::new(), total: 0 }
    }

    /// Adds one table: its fetched rows go after those of the earlier
    /// tables, and its match count (none where counting failed, which adds
    /// nothing) joins the running total, held at `u64::MAX`.
    pub fn add_table(&mut self, count: Option<u64>, rows: Vec<Table>)
        ensures
            final(self).data@ == old(self).data@ + rows@,
            final(self).total == capped(
                old(self).total + count_or_zero(count),
            ),
    {
        let mut rows = rows;
        self.data.append(&mut rows);
        match count {
            Some(c) => {
                self.total = self.total.saturating_add(c);
            },
            None => {},
        }
    }

    /// The page of all rows gathered, and the pages that the total fills.
    pub fn finish(self, page_size: u32) -> (r: PaginatedResult)
        requires
            page_size > 0,
        ensures
            r.data@ == self.data@,
            r.total_pages == ceil_div(self.total as nat, page_size as nat),
    {
        let pages = total_pages(self.total, page_size);
        PaginatedResult { data: self.data, total_pages: pages }
    }
}

} // verus!
