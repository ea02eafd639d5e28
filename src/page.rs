use vstd::prelude::*;
use vstd::arithmetic::div_mod::lemma_fundamental_div_mod_converse;

verus! {

/// `t / s` rounded up, for a positive `s`.
pub open spec fn ceil_div(t: int, s: int) -> int {
    if t % s == 0 {
        t / s
    } else {
        t / s + 1
    }
}

/// The nearest value that an `i32` holds.
pub open spec fn saturate_i32(x: int) -> int {
    if x > i32::MAX {
        i32::MAX as int
    } else if x < i32::MIN {
        i32::MIN as int
    } else {
        x
    }
}

/// The number of pages of `size` elements that `total` elements fill; no
/// pages when the size is not positive.
pub open spec fn total_pages_of(total: int, size: int) -> int {
    if size > 0 {
        saturate_i32(ceil_div(total, size))
    } else {
        0
    }
}

/// Counts the pages that `total_elements` elements fill at `size` per page:
/// the quotient rounded up, held in an `i32`, or 0 for a size of 0 or less.
pub fn page_count(total_elements: i64, size: i32) -> (r: i32)
    ensures
        r as int == total_pages_of(total_elements as int, size as int),
{
    if size <= 0 {
        return 0;
    }
    let t: i128 = total_elements as i128;
    let s: i128 = size as i128;
    let q: i128;
    if t >= 0 {
        let q0: i128 = t / s;
        let r0: i128 = t % s;
        q = if r0 == 0 {
            q0
        } else {
            q0 + 1
        };
    } else {
        let n: i128 = -t;
        let q0: i128 = n / s;
        let r0: i128 = n % s;
        proof {
            let ti = t as int;
            let si = s as int;
            let qi = q0 as int;
            let ri = r0 as int;
            assert(n as int == qi * si + ri) by (nonlinear_arith)
                requires
                    qi == (n as int) / si,
                    ri == (n as int) % si,
                    si > 0,
            {
                vstd::arithmetic::div_mod::lemma_fundamental_div_mod(n as int, si);
            }
            if ri == 0 {
                assert(ti == (-qi) * si + 0) by (nonlinear_arith)
                    requires
                        ti == -(n as int),
                        n as int == qi * si + ri,
                        ri == 0,
                ;
                lemma_fundamental_div_mod_converse(ti, si, -qi, 0);
            } else {
                assert(ti == (-qi - 1) * si + (si - ri)) by (nonlinear_arith)
                    requires
                        ti == -(n as int),
                        n as int == qi * si + ri,
                ;
                lemma_fundamental_div_mod_converse(ti, si, -qi - 1, si - ri);
            }
        }
        q = -q0;
    }
    if q > i32::MAX as i128 {
        i32::MAX
    } else if q < i32::MIN as i128 {
        i32::MIN
    } else {
        q as i32
    }
}

/// One page of a listing.
#[derive(Clone, Debug)]
pub struct Page<T> {
    pub content: Vec<T>,
    pub page: i32,
    pub size: i32,
    pub total_elements: i64,
    pub total_pages: i32,
}

impl<T> Page<T> {
    /// A page; its page count comes from the total element count, not from
    /// the length of the content.
    pub fn new(content: Vec<T>, page: i32, size: i32, total_elements: i64) -> (r: Page<T>)
        ensures
            r.content@ == content@,
            r.page == page,
            r.size == size,
            r.total_elements == total_elements,
            r.total_pages as int == total_pages_of(total_elements as int, size as int),
    {
        let total_pages = page_count(total_elements, size);
        Page { content, page, size, total_elements, total_pages }
    }
}

/// `a / b` rounded toward zero, as integer division does in Rust.
pub open spec fn quotient_toward_zero(a: int, b: int) -> int {
    let q = (if a < 0 { -a } else { a }) / (if b < 0 { -b } else { b });
    if (a < 0) != (b < 0) {
        -q
    } else {
        q
    }
}

/// The index of the page that starts at `offset` with `limit` elements per
/// page: the quotient rounded toward zero.
pub fn page_index(offset: i32, limit: i32) -> (r: i32)
    requires
        limit != 0,
        !(offset == i32::MIN && limit == -1),
    ensures
        r as int == quotient_toward_zero(offset as int, limit as int),
{
    let a: i64 = if offset < 0 {
        -(offset as i64)
    } else {
        offset as i64
    };
    let b: i64 = if limit < 0 {
        -(limit as i64)
    } else {
        limit as i64
    };
    let q: i64 = a / b;
    proof {
        let (ai, bi, qi) = (a as int, b as int, q as int);
        vstd::arithmetic::div_mod::lemma_fundamental_div_mod(ai, bi);
        assert(0 <= ai % bi < bi);
        assert(qi * bi <= ai) by (nonlinear_arith)
            requires
                ai == bi * (ai / bi) + ai % bi,
                qi == ai / bi,
                ai % bi >= 0,
        ;
        assert(0 <= qi) by (nonlinear_arith)
            requires
                ai >= 0,
                bi > 0,
                qi == ai / bi,
        ;
        assert(qi <= ai) by (nonlinear_arith)
            requires
                qi * bi <= ai,
                bi >= 1,
                qi >= 0,
        ;
        if bi >= 2 {
            assert(2 * qi <= ai) by (nonlinear_arith)
                requires
                    qi * bi <= ai,
                    bi >= 2,
                    qi >= 0,
            ;
        }
    }
    let r: i64 = if (offset < 0) != (limit < 0) {
        -q
    } else {
        q
    };
    r as i32
}

} // verus!
