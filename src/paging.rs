//! Pages of a listing.
use vstd::prelude::*;

verus! {

/// Entries per page when the caller names no amount.
pub const DEFAULT_PAGE_SIZE: u32 = 10;

/// A page of a listing: which page, how many entries, and how many to skip.
#[derive(Debug, Clone, Copy, PartialEq, Eq, Structural)]
pub struct PageWindow {
    pub page: u32,
    pub amount: u32,
    pub offset: i64,
}

/// The window for an optional page number and amount: page 0 and the default
/// amount where none is named; `None` for an amount of zero or an offset
/// beyond the 64-bit range.
pub open spec fn window_of(page: Option<u32>, amount: Option<u32>) -> Option<PageWindow> {
    let p = match page {
        Some(p) => p,
        None => 0u32,
    };
    let a = match amount {
        Some(a) => a,
        None => DEFAULT_PAGE_SIZE,
    };
    if a == 0 || p * a > i64::MAX {
        None
    } else {
        Some(PageWindow { page: p, amount: a, offset: (p * a) as i64 })
    }
}

pub fn page_window(page: Option<u32>, amount: Option<u32>) -> (r: Option<PageWindow>)
    ensures
        r == window_of(page, amount),
{
    let p: u32 = match page {
        Some(p) => p,
        None => 0,
    };
    let a: u32 = match amount {
        Some(a) => a,
        None => DEFAULT_PAGE_SIZE,
    };
    if a == 0 {
        return None;
    }
    match (p as i64).checked_mul(a as i64) {
        Some(offset) => Some(PageWindow { page: p, amount: a, offset }),
        None => None,
    }
}

} // verus!
