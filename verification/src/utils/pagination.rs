//! Pagination helpers.
use vstd::prelude::*;

verus! {

/// The 0-based offset of a 1-based page (page 0 counts as page 1),
/// saturating at `u64::MAX`.
pub open spec fn offset_spec(page: u64, page_size: u64) -> u64 {
    let p: int = if page > 1 {
        page as int
    } else {
        1
    };
    let o = (p - 1) * page_size;
    if o > u64::MAX {
        u64::MAX
    } else {
        o as u64
    }
}

/// Compute a 0-based offset from a 1-based page number and a page size.
pub fn offset_for(page: u64, page_size: u64) -> (r: u64)
    ensures
        r == offset_spec(page, page_size),
{
    let p: u64 = if page < 1 {
        1
    } else {
        page
    };
    match (p - 1).checked_mul(page_size) {
        Some(o) => o,
        None => u64::MAX,
    }
}

/// Page 0 is page 1, and consecutive pages start `page_size` rows apart
/// until the offset saturates.
pub proof fn lemma_offset_pages(page: u64, page_size: u64)
    ensures
        offset_spec(0, page_size) == offset_spec(1, page_size),
        offset_spec(1, page_size) == 0,
        page >= 1 && page < u64::MAX && offset_spec(page, page_size) + page_size <= u64::MAX
            ==> offset_spec((page + 1) as u64, page_size) == offset_spec(page, page_size)
            + page_size,
{
    if page >= 1 && page < u64::MAX {
        assert(page * page_size == (page - 1) * page_size + page_size) by (nonlinear_arith);
    }
}

} // verus!
