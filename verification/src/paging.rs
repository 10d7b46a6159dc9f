//! Page numbers and the window of rows that a page stands for.

use vstd::prelude::*;

verus! {

/// The query parameters of a listing: which page, and how many rows a
/// page holds. Pages are numbered from one.
#[derive(Clone, Copy, Debug, PartialEq, Eq)]
pub struct Pagination {
    pub page: Option<usize>,
    pub limit: Option<usize>,
}

/// The rows of one page: skip `offset` rows, then take at most `limit`.
#[derive(Clone, Copy, Debug, PartialEq, Eq)]
pub struct Window {
    pub limit: i64,
    pub offset: i64,
}

impl Default for Pagination {
    /// The first page, ten rows to a page.
    fn default() -> (r: Self)
        ensures
            r.page == Some(1usize),
            r.limit == Some(10usize),
    {
        Pagination { page: Some(1), limit: Some(10) }
    }
}

impl Pagination {
    /// The page asked for; the first if none was named.
    pub open spec fn page_number(self) -> int {
        match self.page {
            Some(p) => p as int,
            None => 1,
        }
    }

    /// The rows to a page; ten if no number was named.
    pub open spec fn page_size(self) -> int {
        match self.limit {
            Some(l) => l as int,
            None => 10,
        }
    }

    /// The page can be turned into a window: it is at least one, and both
    /// its size and its offset fit into a signed 64-bit number.
    pub open spec fn valid(self) -> bool {
        &&& self.page_number() >= 1
        &&& self.page_size() <= i64::MAX
        &&& (self.page_number() - 1) * self.page_size() <= i64::MAX
    }

    /// The window of a valid page: `offset = (page - 1) * limit`.
    pub open spec fn window_of(self) -> Window {
        Window {
            limit: self.page_size() as i64,
            offset: ((self.page_number() - 1) * self.page_size()) as i64,
        }
    }

    /// The window of rows that this page stands for, or `None` if the page
    /// is not valid.
    pub fn window(&self) -> (w: Option<Window>)
        ensures
            w.is_some() == self.valid(),
            self.valid() ==> w == Some(self.window_of()),
    {
        let page: usize = match self.page {
            Some(p) => p,
            None => 1,
        };
        let limit: usize = match self.limit {
            Some(l) => l,
            None => 10,
        };
        if page < 1 {
            return None;
        }
        let before: u128 = (page - 1) as u128;
        let size: u128 = limit as u128;
        assert(before * size <= 0xffff_ffff_ffff_ffff * 0xffff_ffff_ffff_ffff) by (nonlinear_arith)
            requires
                before <= 0xffff_ffff_ffff_ffff,
                size <= 0xffff_ffff_ffff_ffff,
        ;
        let offset: u128 = before * size;
        if size > 0x7fff_ffff_ffff_ffff || offset > 0x7fff_ffff_ffff_ffff {
            return None;
        }
        Some(Window { limit: size as i64, offset: offset as i64 })
    }
}

} // verus!
