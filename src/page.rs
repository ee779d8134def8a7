use vstd::prelude::*;

use crate::entities::Pagination;

verus! {

/// Where a page starts in a result of `len` rows: at `skip`, within `0..=len`.
pub open spec fn page_start(len: int, p: Pagination) -> int {
    if p.skip <= 0 {
        0
    } else if p.skip >= len {
        len
    } else {
        p.skip as int
    }
}

/// Where a page ends: at most `limit` rows after its start, and not past `len`.
pub open spec fn page_end(len: int, p: Pagination) -> int {
    let s = page_start(len, p);
    if p.limit <= 0 {
        s
    } else if s + p.limit >= len {
        len
    } else {
        s + p.limit
    }
}

/// The rows of `s` that a page selects; every row when there is no page.
pub open spec fn window<T>(s: Seq<T>, page: Option<Pagination>) -> Seq<T> {
    match page {
        Some(p) => s.subrange(page_start(s.len() as int, p), page_end(s.len() as int, p)),
        None => s,
    }
}

/// The bounds `(start, end)` of the page within a result of `len` rows.
pub fn window_bounds(len: usize, page: Option<Pagination>) -> (r: (usize, usize))
    ensures
        r.0 <= r.1 <= len,
        page matches Some(p) ==> r.0 == page_start(len as int, p) && r.1 == page_end(len as int, p),
        page is None ==> r.0 == 0 && r.1 == len,
{
    match page {
        None => (0, len),
        Some(p) => {
            let start: usize = if p.skip <= 0 {
                0
            } else if p.skip as i128 >= len as i128 {
                len
            } else {
                p.skip as usize
            };
            let end: usize = if p.limit <= 0 {
                start
            } else if start as i128 + p.limit as i128 >= len as i128 {
                len
            } else {
                (start as i128 + p.limit as i128) as usize
            };
            (start, end)
        },
    }
}

} // verus!
