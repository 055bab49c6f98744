use vstd::prelude::*;

use crate::schema::provider_schema::ProviderFilterOptions;
use crate::schema::response_schema::FilterOptions;

verus! {

/// The page a list request asks for: 1 where it names none.
pub open spec fn page_or_default(page: Option<usize>) -> int {
    match page {
        Some(p) => p as int,
        None => 1,
    }
}

/// The number of items per page: 10 where the request names none.
pub open spec fn limit_or_default(limit: Option<usize>) -> int {
    match limit {
        Some(l) => l as int,
        None => 10,
    }
}

/// The items that a page skips: all those of the pages before it.
pub open spec fn page_offset(page: int, limit: int) -> int {
    (page - 1) * limit
}

/// `a / b` as Rust divides signed integers: the quotient rounded toward zero.
pub open spec fn trunc_div(a: int, b: int) -> int {
    let ua = if a < 0 { -a } else { a };
    let ub = if b < 0 { -b } else { b };
    if (a >= 0) == (b > 0) {
        ua / ub
    } else {
        -(ua / ub)
    }
}

/// The limit and offset of a list page: `limit` defaults to 10, `page` to 1, and the
/// offset is `(page - 1) * limit`. Page 0, and an offset past `usize::MAX`, overflow in the
/// handlers and are left out.
pub fn list_window(page: Option<usize>, limit: Option<usize>) -> (r: (usize, usize))
    requires
        page_or_default(page) >= 1,
        page_offset(page_or_default(page), limit_or_default(limit)) <= usize::MAX,
    ensures
        r.0 == limit_or_default(limit),
        r.1 == page_offset(page_or_default(page), limit_or_default(limit)),
        r.0 as int == (match limit {
            Some(l) => l as int,
            None => 10int,
        }),
        r.1 as int == ((match page {
            Some(p) => p as int,
            None => 1int,
        }) - 1) * (r.0 as int),
{
    let l: usize = match limit {
        Some(l) => l,
        None => 10,
    };
    let p: usize = match page {
        Some(p) => p,
        None => 1,
    };
    (l, (p - 1) * l)
}

/// A limit or offset as the `i32` that the list queries bind (`x as i32`).
pub fn sql_int(x: usize) -> (r: i32)
    ensures
        r == x as i32,
{
    #[verifier::truncate]
    (x as i32)
}

/// The number of pages that a list reports: the row count divided by the limit (as `i64`),
/// rounded toward zero. A limit that is 0 as an `i64` divides by zero in the handlers and is
/// left out, as is the one overflowing quotient.
pub fn pages_count(total: i64, limit: usize) -> (r: i64)
    requires
        (limit as i64) != 0,
        !(total == i64::MIN && (limit as i64) == -1),
    ensures
        r == trunc_div(total as int, (limit as i64) as int),
{
    #[verifier::truncate]
    let b: i64 = limit as i64;
    let ua: u64 = if total < 0 {
        ((-(total + 1)) as u64) + 1
    } else {
        total as u64
    };
    let ub: u64 = if b < 0 {
        ((-(b + 1)) as u64) + 1
    } else {
        b as u64
    };
    let q: u64 = ua / ub;
    if (total >= 0) == (b > 0) {
        assert(q <= i64::MAX) by (nonlinear_arith)
            requires
                q == ua / ub,
                ub >= 1,
                (total >= 0) == (b > 0),
                total < 0 ==> ua == -total && b < 0 && ub == -b,
                total >= 0 ==> ua == total,
                !(total == i64::MIN && b == -1),
        {
            if ub == 1 {
                assert(q == ua);
            } else {
                assert(q <= ua / 2) by {
                    vstd::arithmetic::div_mod::lemma_div_is_ordered_by_denominator(
                        ua as int,
                        2,
                        ub as int,
                    );
                }
            }
        }
        q as i64
    } else if q == 9223372036854775808 {
        i64::MIN
    } else {
        assert(q <= ua) by {
            vstd::arithmetic::div_mod::lemma_div_is_ordered_by_denominator(ua as int, 1, ub as int);
        }
        -(q as i64)
    }
}

/// The page count of the category list: never less than 1.
pub fn at_least_one_page(pages: i64) -> (r: i64)
    ensures
        r == (if pages < 1 { 1 } else { pages }),
{
    if pages < 1 {
        1
    } else {
        pages
    }
}

/// The limit and offset of the user list, as the `i64`s that its query binds: the offset is
/// `(page - 1) * limit` in `u32` arithmetic with the limit cut to a `u32`. Page 0 and an
/// offset past `u32::MAX` overflow and are left out.
pub fn user_list_window(page: u32, limit: usize) -> (r: (i64, i64))
    requires
        page >= 1,
        page_offset(page as int, (limit as u32) as int) <= u32::MAX,
    ensures
        r.0 == limit as i64,
        r.1 == page_offset(page as int, (limit as u32) as int),
        r.1 == (page - 1) * ((limit as u32) as int),
{
    #[verifier::truncate]
    let l: u32 = limit as u32;
    let offset: u32 = (page - 1) * l;
    #[verifier::truncate]
    let sql_limit: i64 = limit as i64;
    (sql_limit, offset as i64)
}

/// The limit and offset of the user list from the request's optional page and limit
/// (defaults 1 and 10), with the page cut to a `u32` as the handler passes it on.
pub fn users_query_window(page: Option<usize>, limit: Option<usize>) -> (r: (i64, i64))
    requires
        (page_or_default(page) as u32) >= 1,
        page_offset(
            (page_or_default(page) as u32) as int,
            (limit_or_default(limit) as u32) as int,
        ) <= u32::MAX,
    ensures
        r.0 == (limit_or_default(limit) as i64),
        r.1 == page_offset(
            (page_or_default(page) as u32) as int,
            (limit_or_default(limit) as u32) as int,
        ),
{
    let p: usize = match page {
        Some(p) => p,
        None => 1,
    };
    let l: usize = match limit {
        Some(l) => l,
        None => 10,
    };
    #[verifier::truncate]
    let page32: u32 = p as u32;
    user_list_window(page32, l)
}

/// For a non-negative row count and a positive limit, the reported number of pages is the
/// number of whole pages: `pages * limit <= total < (pages + 1) * limit`.
pub proof fn law_pages_are_whole_pages(total: int, limit: int)
    requires
        total >= 0,
        limit > 0,
    ensures
        trunc_div(total, limit) * limit <= total < (trunc_div(total, limit) + 1) * limit,
{
    vstd::arithmetic::div_mod::lemma_fundamental_div_mod(total, limit);
    vstd::arithmetic::div_mod::lemma_mod_bound(total, limit);
    assert(trunc_div(total, limit) == total / limit);
    assert((total / limit) * limit == limit * (total / limit)) by (nonlinear_arith);
    assert((total / limit + 1) * limit == limit * (total / limit) + limit) by (nonlinear_arith);
}

/// Division rounds toward zero: the sign of the quotient follows the signs of the operands,
/// and its size is that of the quotient of the sizes.
pub proof fn law_division_rounds_toward_zero(a: int, b: int)
    requires
        b != 0,
    ensures
        trunc_div(-a, b) == -trunc_div(a, b),
        trunc_div(a, -b) == -trunc_div(a, b),
        a >= 0 && b > 0 ==> trunc_div(a, b) == a / b,
        a >= 0 && b > 0 && a < b ==> trunc_div(a, b) == 0,
{
    if a >= 0 && b > 0 && a < b {
        vstd::arithmetic::div_mod::lemma_basic_div(a, b);
    }
}

/// The offset of a page is the number of items on the pages before it: page 1 starts at
/// the first item, and each further page starts exactly one limit after the one before, so
/// pages neither overlap nor leave gaps.
pub proof fn law_pages_follow_each_other(page: int, limit: int)
    requires
        page >= 1,
        limit >= 0,
    ensures
        page_offset(page, limit) == (page - 1) * limit,
        page_offset(1, limit) == 0,
        page_offset(page + 1, limit) == page_offset(page, limit) + limit,
        page_offset(page, limit) >= 0,
{
    assert((page + 1 - 1) * limit == (page - 1) * limit + limit) by (nonlinear_arith);
    assert((page - 1) * limit >= 0) by (nonlinear_arith)
        requires
            page >= 1,
            limit >= 0,
    ;
}

/// A request that names no page asks for page 1, one that names no limit for 10 items, and
/// named values are taken as they are.
pub proof fn law_page_defaults(page: Option<usize>, limit: Option<usize>)
    ensures
        page is None ==> page_or_default(page) == 1,
        limit is None ==> limit_or_default(limit) == 10,
        page matches Some(p) ==> page_or_default(page) == p,
        limit matches Some(l) ==> limit_or_default(limit) == l,
{
}

impl FilterOptions {
    /// The limit and offset of the page that these options ask for.
    pub fn window(&self) -> (r: (usize, usize))
        requires
            page_or_default(self.page) >= 1,
            page_offset(page_or_default(self.page), limit_or_default(self.limit)) <= usize::MAX,
        ensures
            r.0 == limit_or_default(self.limit),
            r.1 == page_offset(page_or_default(self.page), limit_or_default(self.limit)),
            r.0 as int == (match self.limit {
                Some(l) => l as int,
                None => 10int,
            }),
            r.1 as int == ((match self.page {
                Some(p) => p as int,
                None => 1int,
            }) - 1) * (r.0 as int),
    {
        list_window(self.page, self.limit)
    }
}

impl ProviderFilterOptions {
    /// The limit and offset of the page that these options ask for.
    pub fn window(&self) -> (r: (usize, usize))
        requires
            page_or_default(self.page) >= 1,
            page_offset(page_or_default(self.page), limit_or_default(self.limit)) <= usize::MAX,
        ensures
            r.0 == limit_or_default(self.limit),
            r.1 == page_offset(page_or_default(self.page), limit_or_default(self.limit)),
            r.0 as int == (match self.limit {
                Some(l) => l as int,
                None => 10int,
            }),
            r.1 as int == ((match self.page {
                Some(p) => p as int,
                None => 1int,
            }) - 1) * (r.0 as int),
    {
        list_window(self.page, self.limit)
    }
}

} // verus!
