//! Page windows: from a requested page and page size to a row window, and
//! from a row count to the number of pages.

use vstd::prelude::*;

verus! {

/// The page that is served when none is asked for.
pub const DEFAULT_PAGE: u32 = 1;

/// The page size that is used when none is asked for.
pub const DEFAULT_PAGE_SIZE: u32 = 10;

/// The smallest page size that is served.
pub const MIN_PAGE_SIZE: u32 = 1;

/// The largest page size that is served.
pub const MAX_PAGE_SIZE: u32 = 100;

/// The page that a request stands for: the default when absent, and never
/// below the first page.
pub open spec fn effective_page(page: Option<u32>) -> int {
    let asked: int = match page {
        Some(p) => p as int,
        None => DEFAULT_PAGE as int,
    };
    if asked < 1 {
        1
    } else {
        asked
    }
}

/// The page size that a request stands for: the default when absent, brought
/// into the range from `MIN_PAGE_SIZE` to `MAX_PAGE_SIZE`.
pub open spec fn effective_page_size(page_size: Option<u32>) -> int {
    let asked: int = match page_size {
        Some(s) => s as int,
        None => DEFAULT_PAGE_SIZE as int,
    };
    if asked < MIN_PAGE_SIZE as int {
        MIN_PAGE_SIZE as int
    } else if asked > MAX_PAGE_SIZE as int {
        MAX_PAGE_SIZE as int
    } else {
        asked
    }
}

/// The number of rows that precede the window of a request.
pub open spec fn window_offset(page: Option<u32>, page_size: Option<u32>) -> int {
    (effective_page(page) - 1) * effective_page_size(page_size)
}

/// The number of pages that `count` rows fill at `page_size` rows a page.
///
/// An empty result still has one page. A negative count has none. With a
/// page size of zero no number of pages holds the rows, and the result is the
/// largest `u32`, as it is whenever the true number does not fit.
pub open spec fn total_pages_of(count: int, page_size: int) -> int {
    if count == 0 {
        1
    } else if count < 0 {
        0
    } else if page_size <= 0 {
        u32::MAX as int
    } else {
        let pages = (count + page_size - 1) / page_size;
        if pages > u32::MAX as int {
            u32::MAX as int
        } else {
            pages
        }
    }
}

/// The rows of `rows` from position `offset` on, `limit` of them at most: the
/// part of `rows` that falls into the window.
pub open spec fn window_of<T>(rows: Seq<T>, offset: int, limit: int) -> Seq<T>
    recommends
        offset >= 0,
        limit >= 0,
{
    let start = if offset < rows.len() {
        offset
    } else {
        rows.len() as int
    };
    let end = if offset + limit < rows.len() {
        offset + limit
    } else {
        rows.len() as int
    };
    rows.subrange(start, end)
}

/// The page of `rows` that a request asks for.
pub open spec fn page_rows<T>(rows: Seq<T>, pagination: PaginationParams) -> Seq<T> {
    window_of(
        rows,
        window_offset(pagination.page, pagination.page_size),
        effective_page_size(pagination.page_size),
    )
}

/// A page never holds more rows than its size, and it is full unless the
/// rows run out.
pub proof fn lemma_page_rows_len<T>(rows: Seq<T>, pagination: PaginationParams)
    ensures
        page_rows(rows, pagination).len() <= effective_page_size(pagination.page_size),
        page_rows(rows, pagination).len() <= rows.len(),
        window_offset(pagination.page, pagination.page_size) + effective_page_size(
            pagination.page_size,
        ) <= rows.len() ==> page_rows(rows, pagination).len() == effective_page_size(
            pagination.page_size,
        ),
        window_offset(pagination.page, pagination.page_size) >= rows.len() ==> page_rows(
            rows,
            pagination,
        ).len() == 0,
{
    lemma_window_bounds(pagination.page, pagination.page_size);
}

/// For a positive count and page size, `(count + page_size - 1) / page_size`
/// is the least number of pages that holds `count` rows.
pub proof fn lemma_pages_is_ceiling(count: int, page_size: int)
    requires
        count > 0,
        page_size > 0,
    ensures
        ({
            let pages = (count + page_size - 1) / page_size;
            &&& pages >= 1
            &&& pages * page_size >= count
            &&& (pages - 1) * page_size < count
        }),
{
    let pages = (count + page_size - 1) / page_size;
    let rest = (count + page_size - 1) % page_size;
    assert(count + page_size - 1 == page_size * pages + rest && 0 <= rest < page_size) by {
        vstd::arithmetic::div_mod::lemma_fundamental_div_mod(count + page_size - 1, page_size);
        vstd::arithmetic::div_mod::lemma_mod_bound(count + page_size - 1, page_size);
    }
    assert(pages * page_size == page_size * pages) by (nonlinear_arith);
    assert((pages - 1) * page_size == page_size * pages - page_size) by (nonlinear_arith);
    assert(pages >= 1) by (nonlinear_arith)
        requires
            page_size * pages + rest == count + page_size - 1,
            0 <= rest < page_size,
            count > 0,
            page_size > 0,
    ;
}

/// Whatever is asked for, the window has between `MIN_PAGE_SIZE` and
/// `MAX_PAGE_SIZE` rows, starts at a multiple of its size and never before
/// the first row.
pub proof fn lemma_window_bounds(page: Option<u32>, page_size: Option<u32>)
    ensures
        effective_page(page) >= 1,
        MIN_PAGE_SIZE <= effective_page_size(page_size) <= MAX_PAGE_SIZE,
        0 <= window_offset(page, page_size) <= (u32::MAX - 1) * MAX_PAGE_SIZE,
        window_offset(page, page_size) % effective_page_size(page_size) == 0,
{
    let p = effective_page(page);
    let s = effective_page_size(page_size);
    assert(0 <= (p - 1) * s <= (u32::MAX - 1) * 100) by (nonlinear_arith)
        requires
            1 <= p <= u32::MAX,
            1 <= s <= 100,
    ;
    vstd::arithmetic::div_mod::lemma_mod_multiples_basic(p - 1, s);
}

/// The number of pages that `count` rows fill at `page_size` rows a page:
/// one for an empty result, else the count divided by the page size, rounded
/// up.
pub fn total_pages(count: i64, page_size: u32) -> (pages: u32)
    ensures
        pages == total_pages_of(count as int, page_size as int),
        count == 0 ==> pages == 1,
{
    if count == 0 {
        1
    } else if count < 0 {
        0
    } else if page_size == 0 {
        u32::MAX
    } else {
        let size: i64 = page_size as i64;
        let whole: i64 = count / size;
        let rest: i64 = count % size;
        proof {
            lemma_rounded_up(count as int, size as int);
        }
        let pages: i64 = if rest == 0 {
            whole
        } else {
            whole + 1
        };
        if pages > u32::MAX as i64 {
            u32::MAX
        } else {
            pages as u32
        }
    }
}

/// Rounding a quotient up, by the remainder or by adding the divisor less one.
proof fn lemma_rounded_up(count: int, size: int)
    requires
        count > 0,
        size > 0,
    ensures
        0 <= count / size <= count,
        count % size != 0 ==> count / size < count,
        (count + size - 1) / size == if count % size == 0 {
            count / size
        } else {
            count / size + 1
        },
{
    let whole = count / size;
    let rest = count % size;
    vstd::arithmetic::div_mod::lemma_fundamental_div_mod(count, size);
    vstd::arithmetic::div_mod::lemma_mod_bound(count, size);
    assert(0 <= whole <= count && (rest != 0 ==> whole < count)) by (nonlinear_arith)
        requires
            count == size * whole + rest,
            0 <= rest < size,
            count > 0,
            size > 0,
    ;
    if rest == 0 {
        assert(count + size - 1 == size * whole + (size - 1));
        vstd::arithmetic::div_mod::lemma_fundamental_div_mod_converse(
            count + size - 1,
            size,
            whole,
            size - 1,
        );
    } else {
        assert(count + size - 1 == size * (whole + 1) + (rest - 1)) by (nonlinear_arith)
            requires
                count == size * whole + rest,
        ;
        vstd::arithmetic::div_mod::lemma_fundamental_div_mod_converse(
            count + size - 1,
            size,
            whole + 1,
            rest - 1,
        );
    }
}

/// What a list response says of the whole result beside the page it carries.
#[derive(Clone, Copy, Debug, PartialEq, Eq, Structural)]
pub struct PaginationMeta {
    pub total_records: i64,
    pub page: u32,
    pub page_size: u32,
    pub total_pages: u32,
}

/// The page and page size as a request gave them, each possibly absent.
#[derive(Clone, Copy, Debug, PartialEq, Eq, Structural)]
pub struct PaginationParams {
    pub page: Option<u32>,
    pub page_size: Option<u32>,
}

impl PaginationParams {
    /// The row window of the request as `(limit, offset, page, page_size)`:
    /// the page is at least 1, the page size lies between `MIN_PAGE_SIZE` and
    /// `MAX_PAGE_SIZE`, the limit is the page size and the offset is the
    /// number of rows on the pages before.
    pub fn normalize(&self) -> (window: (i64, i64, u32, u32))
        ensures
            window.2 == effective_page(self.page),
            window.3 == effective_page_size(self.page_size),
            window.0 == window.3,
            window.1 == (window.2 - 1) * window.0,
            window.1 == window_offset(self.page, self.page_size),
    {
        let asked_page: u32 = match self.page {
            Some(p) => p,
            None => DEFAULT_PAGE,
        };
        let page: u32 = if asked_page < 1 {
            1
        } else {
            asked_page
        };
        let asked_size: u32 = match self.page_size {
            Some(s) => s,
            None => DEFAULT_PAGE_SIZE,
        };
        let page_size: u32 = if asked_size < MIN_PAGE_SIZE {
            MIN_PAGE_SIZE
        } else if asked_size > MAX_PAGE_SIZE {
            MAX_PAGE_SIZE
        } else {
            asked_size
        };
        let limit: i64 = page_size as i64;
        let before: i64 = (page - 1) as i64;
        assert(0 <= before * limit <= (u32::MAX - 1) * 100) by (nonlinear_arith)
            requires
                0 <= before <= u32::MAX - 1,
                1 <= limit <= 100,
        ;
        let offset: i64 = before * limit;
        (limit, offset, page, page_size)
    }
}

/// One page of a list with the figures of the whole result.
#[derive(Debug, PartialEq, Eq)]
pub struct PaginatedResponse<T> {
    pub data: Vec<T>,
    pub meta: PaginationMeta,
}

impl<T> PaginatedResponse<T> {
    /// Wraps the rows of one page. `count` is the number of rows in the whole
    /// result, from which the number of pages follows.
    pub fn new(data: Vec<T>, count: i64, page: u32, page_size: u32) -> (response: Self)
        ensures
            response.data == data,
            response.meta == (PaginationMeta {
                total_records: count,
                page,
                page_size,
                total_pages: total_pages_of(count as int, page_size as int) as u32,
            }),
            response.meta.total_pages == total_pages_of(count as int, page_size as int),
    {
        let total_pages: u32 = total_pages(count, page_size);
        Self { data, meta: PaginationMeta { total_records: count, page, page_size, total_pages } }
    }
}

} // verus!
