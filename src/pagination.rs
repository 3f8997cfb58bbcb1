//! Walking the pages of the news API's article listing.

use vstd::prelude::*;

verus! {

/// Articles asked for per page.
pub const MAX_PAGE_SIZE: u32 = 100;

/// Where a walk through the listing stands: the next page to ask for
/// (from 1), and the total number of results once a page has told it.
#[derive(Debug)]
pub struct ArticlesPagination {
    pub api_key: String,
    pub next_page_index: u32,
    pub total: Option<usize>,
}

/// Whether the pages asked for so far cover every result.
pub open spec fn covered(next_page_index: u32, total: Option<usize>) -> bool {
    match total {
        Some(t) => MAX_PAGE_SIZE as int * (next_page_index as int - 1) >= t as int,
        None => false,
    }
}

impl ArticlesPagination {
    pub open spec fn wf(&self) -> bool {
        self.next_page_index >= 1
    }

    /// The page to ask for next, or `None` once the listing is exhausted
    /// (or no further page number can be written).
    pub open spec fn spec_next_page(&self) -> Option<u32> {
        if covered(self.next_page_index, self.total) || self.next_page_index == u32::MAX {
            None
        } else {
            Some(self.next_page_index)
        }
    }

    /// A walk that starts at the first page, with the total still unknown.
    pub fn new(api_key: &str) -> (r: ArticlesPagination)
        ensures
            r.wf(),
            r.api_key@ == api_key@,
            r.next_page_index == 1,
            r.total is None,
    {
        ArticlesPagination { api_key: String::from_str(api_key), next_page_index: 1, total: None }
    }

    pub fn next_page(&self) -> (r: Option<u32>)
        requires
            self.wf(),
        ensures
            r == self.spec_next_page(),
    {
        let covered = match self.total {
            Some(t) => (MAX_PAGE_SIZE as u64) * ((self.next_page_index - 1) as u64) >= t as u64,
            None => false,
        };
        if covered || self.next_page_index == u32::MAX {
            None
        } else {
            Some(self.next_page_index)
        }
    }

    /// Records the page just fetched, which reported `total_results`.
    pub fn record_page(&mut self, total_results: usize)
        requires
            old(self).wf(),
            old(self).spec_next_page() is Some,
        ensures
            final(self).wf(),
            final(self).api_key == old(self).api_key,
            final(self).next_page_index == old(self).next_page_index + 1,
            final(self).total == Some(total_results),
    {
        self.total = Some(total_results);
        self.next_page_index = self.next_page_index + 1;
    }
}

} // verus!
