//! Pagination parameters for history listings.

use vstd::prelude::*;

verus! {

/// A 1-indexed page selector. `page_size` bounds how many rows the page
/// holds.
#[derive(Debug)]
pub struct PaginationParams {
    pub page: usize,
    pub page_size: usize,
}

/// The page requested when the caller names none.
pub fn default_page() -> (p: usize)
    ensures
        p == 1,
{
    1
}

/// The page size used when the caller names none.
pub fn default_page_size() -> (p: usize)
    ensures
        p == 10,
{
    10
}

} // verus!
