//! Pages of a listing: which rows a request asks for, and how many pages
//! the whole listing has.

use vstd::prelude::*;
use vstd::arithmetic::div_mod::{lemma_fundamental_div_mod, lemma_fundamental_div_mod_converse};

verus! {

/// What a listing request asks for: `size` rows per page, page number
/// `page` (counted from 1).
#[derive(Debug, Clone, Copy, PartialEq, Eq)]
pub struct ResponsePagination {
    pub size: i64,
    pub page: i64,
}

/// The size of the whole listing: its rows and its pages.
#[derive(Debug, Clone, Copy, PartialEq, Eq)]
pub struct RequestPagination {
    pub total_count: i64,
    pub total_pages: i64,
}

/// One page of a listing, with the listing's size.
#[derive(Debug, Clone, PartialEq, Eq)]
pub struct List<T> {
    pub pagination: RequestPagination,
    pub items: Vec<T>,
}

/// The page size asked for when a request gives none.
pub const DEFAULT_PAGE_SIZE: i64 = 10;

/// The page asked for when a request gives none.
pub const DEFAULT_PAGE: i64 = 1;

impl Default for ResponsePagination {
    fn default() -> (r: ResponsePagination)
        ensures
            r.size == 10,
            r.page == 1,
    {
        ResponsePagination { size: DEFAULT_PAGE_SIZE, page: DEFAULT_PAGE }
    }
}

/// The smallest integer not below `a / b` (`b != 0`), in exact arithmetic.
pub open spec fn ceil_div(a: int, b: int) -> int {
    if b > 0 {
        -((-a) / b)
    } else {
        -(a / (-b))
    }
}

/// The number of pages of `total_count` rows at `size` rows a page; no
/// pages for a size of zero.
pub open spec fn page_count(total_count: int, size: int) -> int {
    if size == 0 {
        0
    } else {
        ceil_div(total_count, size)
    }
}

/// The page count as a 64-bit integer holds it: the one count beyond the
/// range (`i64::MIN` rows at size -1) becomes `i64::MAX`, as a float cast
/// saturates.
pub open spec fn saturated_page_count(total_count: int, size: int) -> int {
    if page_count(total_count, size) > i64::MAX {
        i64::MAX as int
    } else {
        page_count(total_count, size)
    }
}

impl ResponsePagination {
    /// The pagination a request asks for, with the defaults for what it
    /// leaves out.
    pub fn from_query(size: Option<i64>, page: Option<i64>) -> (r: ResponsePagination)
        ensures
            r.size == match size {
                Some(s) => s,
                None => 10,
            },
            r.page == match page {
                Some(p) => p,
                None => 1,
            },
    {
        ResponsePagination {
            size: match size {
                Some(s) => s,
                None => DEFAULT_PAGE_SIZE,
            },
            page: match page {
                Some(p) => p,
                None => DEFAULT_PAGE,
            },
        }
    }

    /// The number of rows before the page: pages below 1 count as page 1.
    pub open spec fn offset_spec(self) -> int {
        let page = if self.page < 1 {
            1
        } else {
            self.page as int
        };
        (page - 1) * self.size
    }

    /// Whether the offset of the page is a 64-bit integer.
    pub fn offset_fits(&self) -> (r: bool)
        ensures
            r == (i64::MIN <= self.offset_spec() <= i64::MAX),
    {
        let page: i64 = if self.page < 1 {
            1
        } else {
            self.page
        };
        let before: i128 = (page as i128) - 1;
        let size: i128 = self.size as i128;
        assert(-0x4000_0000_0000_0000_0000_0000_0000_0000 <= before * size
            <= 0x4000_0000_0000_0000_0000_0000_0000_0000)
            by (nonlinear_arith)
            requires
                0 <= before <= 0x7fff_ffff_ffff_ffff,
                -0x8000_0000_0000_0000 <= size <= 0x7fff_ffff_ffff_ffff,
        ;
        let product: i128 = before * size;
        -0x8000_0000_0000_0000i128 <= product && product <= 0x7fff_ffff_ffff_ffffi128
    }

    /// The number of rows before the page: `(max(page, 1) - 1) * size`.
    pub fn offset(&self) -> (r: i64)
        requires
            i64::MIN <= self.offset_spec() <= i64::MAX,
        ensures
            r == self.offset_spec(),
    {
        let page: i64 = if self.page < 1 {
            1
        } else {
            self.page
        };
        (page - 1) * self.size
    }
}

/// `ceil(a / b)` from the quotient `q` and remainder `r` of `|a|` by `|b|`:
/// `q` plus one for a remainder when the signs agree, `-q` when they differ.
proof fn lemma_ceil_by_magnitudes(a: int, b: int, q: int, r: int)
    requires
        b != 0,
        q == (if a < 0 { -a } else { a }) / (if b < 0 { -b } else { b }),
        r == (if a < 0 { -a } else { a }) % (if b < 0 { -b } else { b }),
    ensures
        ceil_div(a, b) == if (a >= 0) == (b > 0) {
            if r > 0 { q + 1 } else { q }
        } else {
            -q
        },
{
    let am = if a < 0 { -a } else { a };
    let bm = if b < 0 { -b } else { b };
    lemma_fundamental_div_mod(am, bm);
    assert(am == q * bm + r) by (nonlinear_arith)
        requires
            am == bm * (am / bm) + am % bm,
            q == am / bm,
            r == am % bm,
    ;
    assert(0 <= r < bm);
    if b > 0 {
        if a >= 0 {
            if r > 0 {
                assert(-a == (-q - 1) * b + (b - r)) by (nonlinear_arith)
                    requires
                        a == q * b + r,
                ;
                lemma_fundamental_div_mod_converse(-a, b, -q - 1, b - r);
            } else {
                assert(-a == (-q) * b + 0) by (nonlinear_arith)
                    requires
                        a == q * b + r,
                        r == 0,
                ;
                lemma_fundamental_div_mod_converse(-a, b, -q, 0);
            }
        } else {
            lemma_fundamental_div_mod_converse(-a, b, q, r);
        }
    } else {
        if a >= 0 {
            lemma_fundamental_div_mod_converse(a, -b, q, r);
        } else {
            if r > 0 {
                assert(a == (-q - 1) * (-b) + ((-b) - r)) by (nonlinear_arith)
                    requires
                        -a == q * (-b) + r,
                ;
                lemma_fundamental_div_mod_converse(a, -b, -q - 1, (-b) - r);
            } else {
                assert(a == (-q) * (-b) + 0) by (nonlinear_arith)
                    requires
                        -a == q * (-b) + r,
                        r == 0,
                ;
                lemma_fundamental_div_mod_converse(a, -b, -q, 0);
            }
        }
    }
}

/// The magnitude of a 64-bit integer.
fn magnitude(x: i64) -> (m: u64)
    ensures
        m == if x < 0 { -x } else { x as int },
{
    if x < 0 {
        (0i128 - (x as i128)) as u64
    } else {
        x as u64
    }
}

impl RequestPagination {
    /// The size of a listing of `total_count` rows shown `size` rows a
    /// page: the page count is `ceil(total_count / size)`, held to the
    /// 64-bit range, and 0 for a size of 0.
    pub fn for_count(total_count: i64, size: i64) -> (r: RequestPagination)
        ensures
            r.total_count == total_count,
            r.total_pages == saturated_page_count(total_count as int, size as int),
    {
        if size == 0 {
            return RequestPagination { total_count, total_pages: 0 };
        }
        if total_count == i64::MIN && size == -1 {
            proof {
                lemma_ceil_by_magnitudes(total_count as int, size as int, 0x8000_0000_0000_0000, 0);
            }
            return RequestPagination { total_count, total_pages: i64::MAX };
        }
        let a = magnitude(total_count);
        let b = magnitude(size);
        let q = a / b;
        let rem = a % b;
        proof {
            lemma_ceil_by_magnitudes(total_count as int, size as int, q as int, rem as int);
            lemma_fundamental_div_mod(a as int, b as int);
            assert(q * b + rem == a) by (nonlinear_arith)
                requires
                    a == b * (a / b) + a % b,
                    q == a / b,
                    rem == a % b,
            ;
            assert(q <= a) by (nonlinear_arith)
                requires
                    q * b + rem == a,
                    b >= 1,
                    rem >= 0,
                    q >= 0,
            ;
            if rem > 0 {
                assert(b >= 2);
                assert(2 * q <= a) by (nonlinear_arith)
                    requires
                        q * b + rem == a,
                        b >= 2,
                        rem >= 0,
                        q >= 0,
                ;
            }
            if q == 0x8000_0000_0000_0000 {
                assert(q * b <= a) by (nonlinear_arith)
                    requires
                        q * b + rem == a,
                        rem >= 0,
                ;
                assert(b == 1) by (nonlinear_arith)
                    requires
                        q * b <= a,
                        a <= 0x8000_0000_0000_0000,
                        q == 0x8000_0000_0000_0000,
                        b >= 1,
                ;
                assert(total_count == i64::MIN);
            }
        }
        let same_sign = (total_count >= 0) == (size > 0);
        let total_pages: i64 = if same_sign {
            if rem > 0 {
                (q + 1) as i64
            } else {
                q as i64
            }
        } else {
            (0i128 - (q as i128)) as i64
        };
        RequestPagination { total_count, total_pages }
    }
}

impl<T> List<T> {
    /// A page of `items` out of `total_count` rows shown `size` rows a page.
    pub fn page_of(total_count: i64, size: i64, items: Vec<T>) -> (r: List<T>)
        ensures
            r.pagination.total_count == total_count,
            r.pagination.total_pages == saturated_page_count(total_count as int, size as int),
            r.items == items,
    {
        List { pagination: RequestPagination::for_count(total_count, size), items }
    }
}

} // verus!
