//! Pagination metadata attached to list responses.

use vstd::prelude::*;

verus! {

/// Number of pages needed for `total` records at `limit` per page, saturating
/// at `u32::MAX`; zero records over a zero limit are zero pages.
pub open spec fn total_pages_of(total: nat, limit: nat) -> nat {
    if limit == 0 {
        if total == 0 {
            0
        } else {
            u32::MAX as nat
        }
    } else {
        let tp = total / limit + if total % limit == 0 {
            0
        } else {
            1 as nat
        };
        if tp > u32::MAX as nat {
            u32::MAX as nat
        } else {
            tp
        }
    }
}

/// Pagination metadata: the requested page and limit, the total record
/// count, and the derived page count and neighbor flags.
#[derive(Debug, Clone, Copy)]
pub struct PaginationMeta {
    pub page: u32,
    pub limit: u32,
    pub total: u64,
    pub total_pages: u32,
    pub has_next: bool,
    pub has_prev: bool,
}

/// One page of results together with its pagination metadata.
#[derive(Debug, Clone)]
pub struct PaginatedResponse<T> {
    pub list: Vec<T>,
    pub pagination: PaginationMeta,
}

impl PaginationMeta {
    pub fn new(page: u32, limit: u32, total: u64) -> (m: Self)
        ensures
            m.page == page,
            m.limit == limit,
            m.total == total,
            m.total_pages == total_pages_of(total as nat, limit as nat),
            m.has_next == (page < m.total_pages),
            m.has_prev == (page > 1),
    {
        let total_pages: u32 = if limit == 0 {
            if total == 0 {
                0
            } else {
                u32::MAX
            }
        } else {
            let l = limit as u64;
            let mut tp: u64 = total / l;
            if total % l != 0 {
                proof {
                    assert(total / l < u64::MAX) by (nonlinear_arith)
                        requires
                            1 <= l,
                            total % l != 0,
                            total <= u64::MAX,
                    {}
                }
                tp = tp + 1;
            }
            if tp > (u32::MAX as u64) {
                u32::MAX
            } else {
                tp as u32
            }
        };
        PaginationMeta { page, limit, total, total_pages, has_next: page < total_pages, has_prev: page > 1 }
    }
}

} // verus!
