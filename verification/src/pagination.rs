//! Offset-based pagination shared by secret listing and history listing.
//!
//! Pages are 1-based and a page holds at most `limit` entries; the total
//! count is always that of the full sequence, never of the returned window.

use vstd::prelude::*;

verus! {

/// How many entries precede the requested page.
pub open spec fn spec_offset(page: int, limit: int) -> int
    recommends
        page >= 1,
{
    (page - 1) * limit
}

/// The window of `s` that the requested page shows.
pub open spec fn page_window<T>(s: Seq<T>, page: int, limit: int) -> Seq<T>
    recommends
        page >= 1,
        limit >= 1,
{
    let off = spec_offset(page, limit);
    if off >= s.len() {
        Seq::empty()
    } else if off + limit >= s.len() {
        s.subrange(off, s.len() as int)
    } else {
        s.subrange(off, off + limit)
    }
}

/// Computes the offset of a page, or `None` where it cannot be represented.
pub fn page_offset(page: usize, limit: usize) -> (r: Option<usize>)
    requires
        page >= 1,
    ensures
        match r {
            Some(o) => o == spec_offset(page as int, limit as int),
            None => spec_offset(page as int, limit as int) > usize::MAX,
        },
{
    (page - 1).checked_mul(limit)
}

} // verus!
