use vstd::prelude::*;
use crate::constants::MAX_PAGE_SIZE;
use crate::error::AppError;
use crate::validation::validate_pagination;

verus! {

/// A page request: `page` counts from 1, `limit` rows per page.
pub struct Pagenation {
    pub page: u32,
    pub limit: u32,
}

/// One page of rows with its accounting.
///
/// `total_known` is false when the row count could not be obtained and
/// `total` stands at 0 in its place, so that a stale page is diagnosable.
pub struct PagenationResult<T> {
    pub data: Vec<T>,
    pub total: u64,
    pub page: u32,
    pub limit: u32,
    pub total_pages: u64,
    pub has_next: bool,
    pub has_prev: bool,
    pub total_known: bool,
}

/// `ceil(total / limit)`.
pub open spec fn ceil_div(total: int, limit: int) -> int {
    if total % limit == 0 {
        total / limit
    } else {
        total / limit + 1
    }
}

/// A page request that the engine accepts.
pub open spec fn valid_page_request(page: int, limit: int) -> bool {
    page >= 1 && 1 <= limit <= MAX_PAGE_SIZE
}

/// The index of the first row of `page`.
pub open spec fn offset_of(page: int, limit: int) -> int {
    (page - 1) * limit
}

/// The number of pages that `total` rows fill, `limit` to a page.
pub fn total_pages(total: u64, limit: u32) -> (r: u64)
    requires
        limit > 0,
    ensures
        r == ceil_div(total as int, limit as int),
{
    let l = limit as u64;
    if total % l == 0 {
        total / l
    } else {
        proof {
            if l == 1 {
                assert(total % 1 == 0);
            }
            assert(total / l < u64::MAX) by (nonlinear_arith)
                requires l >= 2;
        }
        total / l + 1
    }
}

/// Checks a page request and gives its `(offset, limit)`.
pub fn paginate(page: u32, limit: u32) -> (r: Result<(u64, u32), AppError>)
    ensures
        valid_page_request(page as int, limit as int) <==> r is Ok,
        r matches Ok((offset, l)) ==> offset == offset_of(page as int, limit as int) && l == limit,
        r matches Err(e) ==> e is Validation,
        page == 0 ==> r matches Err(AppError::Validation(_)),
        limit == 0 ==> r matches Err(AppError::Validation(_)),
{
    match validate_pagination(page, limit) {
        Ok((p, l)) => {
            proof {
                assert((p as int - 1) * l as int <= u32::MAX as int * MAX_PAGE_SIZE as int)
                    by (nonlinear_arith)
                    requires p >= 1, p <= u32::MAX, l <= MAX_PAGE_SIZE;
            }
            let offset = (p as u64 - 1) * (l as u64);
            Ok((offset, l))
        },
        Err(e) => Err(e),
    }
}

/// Builds the page envelope from the fetched rows and the row count.
pub fn assemble<T>(data: Vec<T>, total: u64, page: u32, limit: u32, total_known: bool) -> (r:
    PagenationResult<T>)
    requires
        limit > 0,
    ensures
        r.data@ == data@,
        r.total == total,
        r.page == page,
        r.limit == limit,
        r.total_pages == ceil_div(total as int, limit as int),
        r.has_next == (page < r.total_pages),
        r.has_prev == (page > 1),
        r.total_known == total_known,
{
    let pages = total_pages(total, limit);
    PagenationResult {
        data,
        total,
        page,
        limit,
        total_pages: pages,
        has_next: (page as u64) < pages,
        has_prev: page > 1,
        total_known,
    }
}

/// `ceil_div` is the ceiling of the quotient: the fewest pages of `limit`
/// rows that hold `total` rows.
pub proof fn lemma_total_pages_is_ceiling(total: nat, limit: nat)
    requires
        limit > 0,
    ensures
        ceil_div(total as int, limit as int) * limit >= total,
        (ceil_div(total as int, limit as int) - 1) * limit < total || total == 0,
        total == 0 ==> ceil_div(total as int, limit as int) == 0,
        total > 0 ==> ceil_div(total as int, limit as int) >= 1,
{
    let q = total as int / limit as int;
    let m = total as int % limit as int;
    assert(total as int == limit * q + m && 0 <= m < limit) by (nonlinear_arith)
        requires limit > 0, q == total as int / limit as int, m == total as int % limit as int;
    if m == 0 {
        assert(q * limit >= total) by (nonlinear_arith)
            requires total as int == limit * q + m, m == 0;
        assert((q - 1) * limit < total || total == 0) by (nonlinear_arith)
            requires total as int == limit * q + m, m == 0, limit > 0, q >= 0;
    } else {
        assert((q + 1) * limit >= total) by (nonlinear_arith)
            requires total as int == limit * q + m, m < limit;
        assert(q * limit < total) by (nonlinear_arith)
            requires total as int == limit * q + m, m > 0;
    }
    if total > 0 && m == 0 {
        assert(q >= 1) by (nonlinear_arith)
            requires total as int == limit * q, total > 0, limit > 0;
    }
}

/// For any positive row count and page size, the envelope's page count is the
/// ceiling of their quotient and its flags follow the page's position, for
/// pages inside the range and beyond it.
pub proof fn lemma_page_flags(total: u64, limit: u32, page: u32)
    requires
        total > 0,
        limit > 0,
        page >= 1,
    ensures
        ({
            let n = ceil_div(total as int, limit as int);
            &&& n * limit >= total
            &&& (n - 1) * limit < total
            &&& (page < n) == (page as int * limit < total)
        }),
{
    lemma_total_pages_is_ceiling(total as nat, limit as nat);
    let n = ceil_div(total as int, limit as int);
    if page < n {
        assert(page as int * limit < total) by (nonlinear_arith)
            requires page as int <= n - 1, (n - 1) * limit < total, limit > 0;
    } else {
        assert(page as int * limit >= total) by (nonlinear_arith)
            requires page as int >= n, n * limit >= total, limit > 0;
    }
}

/// With no rows there are no pages, and no page has a next one.
pub proof fn lemma_empty_total(limit: u32, page: u32)
    requires
        limit > 0,
        page >= 1,
    ensures
        ceil_div(0, limit as int) == 0,
        !(page < ceil_div(0, limit as int)),
{
}

} // verus!
