use vstd::prelude::*;
use crate::api_error::CanisterResult;

verus! {

/// One page of a list, with the numbers that describe the paging.
#[derive(Debug)]
pub struct PagedResponse<T> {
    pub page: usize,
    pub limit: usize,
    pub total: usize,
    pub number_of_pages: usize,
    pub data: Vec<T>,
}

/// Number of pages of `limit` items that `total` items fill; a limit of zero
/// over a non-empty list counts as unbounded.
pub open spec fn page_count(total: int, limit: int) -> int {
    if limit == 0 {
        if total == 0 { 0 } else { usize::MAX as int }
    } else if total % limit == 0 {
        total / limit
    } else {
        total / limit + 1
    }
}

/// The page size used: the asked limit, capped at the list's length.
pub open spec fn effective_limit(total: int, limit: int) -> int {
    if limit >= total { total } else { limit }
}

/// The page actually served: the one asked for, or the last page when the
/// request runs past it.
pub open spec fn served_page(page: int, total: int, limit: int) -> int {
    let n = page_count(total, effective_limit(total, limit));
    if page >= n { n } else { page }
}

/// Index of the first item on the served page.
pub open spec fn page_start(page: int, total: int, limit: int) -> int {
    let l = effective_limit(total, limit);
    let n = page_count(total, l);
    if page >= n { if n == 0 { 0 } else { (n - 1) * l } } else { (page - 1) * l }
}

/// Index one past the last item on the served page.
pub open spec fn page_end(page: int, total: int, limit: int) -> int {
    let l = effective_limit(total, limit);
    let n = page_count(total, l);
    if page >= n { total } else { page * l }
}

proof fn lemma_page_bounds(page: int, total: int, limit: int)
    requires
        page >= 1,
        total >= 0,
        limit >= 0,
    ensures
        0 <= page_start(page, total, limit) <= page_end(page, total, limit) <= total,
{
    let l = effective_limit(total, limit);
    let n = page_count(total, l);
    if l > 0 {
        assert(l <= total);
        if total % l == 0 {
            assert(n * l == total) by (nonlinear_arith)
                requires n == total / l, total % l == 0, l > 0;
            assert((n - 1) * l <= total) by (nonlinear_arith)
                requires n * l == total, l > 0;
        } else {
            assert((n - 1) * l <= total && total < n * l) by (nonlinear_arith)
                requires n == total / l + 1, l > 0, total % l != 0, total >= 0;
        }
        assert(n >= 1) by (nonlinear_arith)
            requires n == page_count(total, l), l > 0, l <= total, total >= 0;
        if page >= n {
            assert(0 <= (n - 1) * l) by (nonlinear_arith)
                requires n >= 1, l >= 0;
        } else {
            assert(0 <= (page - 1) * l <= page * l <= (n - 1) * l) by (nonlinear_arith)
                requires 1 <= page < n, l >= 0;
        }
    } else {
        assert((page - 1) * l == 0 && page * l == 0 && (n - 1) * l == 0) by (nonlinear_arith)
            requires l == 0;
    }
}

impl<T> PagedResponse<T> {
    /// Page `page` (counted from 1) of `data`, `limit` items per page. Page 0
    /// gives an empty page; a page past the end gives the last page.
    pub fn new(page: usize, limit: usize, data: Vec<T>) -> (r: Self)
        ensures
            r.total == data@.len(),
            page == 0 ==> {
                &&& r.page == 0
                &&& r.limit == limit
                &&& r.number_of_pages == 0
                &&& r.data@ == Seq::<T>::empty()
            },
            page > 0 ==> {
                &&& r.limit == effective_limit(data@.len() as int, limit as int)
                &&& r.number_of_pages == page_count(data@.len() as int, r.limit as int)
                &&& r.page == served_page(page as int, data@.len() as int, limit as int)
                &&& r.data@ == data@.subrange(
                    page_start(page as int, data@.len() as int, limit as int),
                    page_end(page as int, data@.len() as int, limit as int),
                )
            },
    {
        let total = data.len();
        if page == 0 {
            return PagedResponse { page, limit, total, number_of_pages: 0, data: Vec::new() };
        }
        let lim: usize = if limit >= total { total } else { limit };
        let number_of_pages: usize = if lim == 0 {
            if total == 0 { 0 } else { usize::MAX }
        } else if total % lim == 0 {
            total / lim
        } else {
            proof {
                if total / lim >= usize::MAX {
                    assert(lim == 1) by (nonlinear_arith)
                        requires lim > 0, total / lim >= usize::MAX, total <= usize::MAX;
                }
            }
            total / lim + 1
        };
        proof {
            lemma_page_bounds(page as int, total as int, limit as int);
        }
        let served: usize;
        let start: usize;
        let end: usize;
        if page >= number_of_pages {
            served = number_of_pages;
            start = if number_of_pages == 0 { 0 } else { (number_of_pages - 1) * lim };
            end = total;
        } else {
            served = page;
            start = (page - 1) * lim;
            end = page * lim;
        }
        let mut all = data;
        let mut part = all.split_off(start);
        part.truncate(end - start);
        proof {
            assert(part@ =~= data@.subrange(start as int, end as int));
        }
        PagedResponse { page: served, limit: lim, total, number_of_pages, data: part }
    }

    /// The same page with each item passed through `f`.
    pub fn map<R, F: Fn(&T) -> R>(&self, f: F) -> (r: PagedResponse<R>)
        requires
            forall|x: &T| #[trigger] f.requires((x,)),
        ensures
            r.page == self.page,
            r.limit == self.limit,
            r.total == self.total,
            r.number_of_pages == self.number_of_pages,
            r.data@.len() == self.data@.len(),
            forall|i: int| 0 <= i < self.data@.len() ==> #[trigger] f.ensures((&self.data@[i],), r.data@[i]),
    {
        let mut out: Vec<R> = Vec::new();
        let mut i: usize = 0;
        while i < self.data.len()
            invariant
                i <= self.data@.len(),
                out@.len() == i,
                forall|x: &T| #[trigger] f.requires((x,)),
                forall|j: int| 0 <= j < i ==> #[trigger] f.ensures((&self.data@[j],), out@[j]),
            decreases self.data@.len() - i,
        {
            let y = f(&self.data[i]);
            out.push(y);
            i = i + 1;
        }
        PagedResponse {
            page: self.page,
            limit: self.limit,
            total: self.total,
            number_of_pages: self.number_of_pages,
            data: out,
        }
    }

    pub fn into_result(self) -> (r: CanisterResult<Self>)
        ensures
            r == Ok::<Self, crate::api_error::ApiError>(self),
    {
        Ok(self)
    }
}

} // verus!
