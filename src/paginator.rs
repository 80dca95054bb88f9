use vstd::prelude::*;
use crate::api::Result;

verus! {

/// One page of the upstream listing: its number and how many items it holds.
#[derive(Debug, Clone, Copy, PartialEq, Eq, Structural)]
pub struct Page {
    pub page_no: u32,
    pub page_size: u32,
}

impl Page {
    pub fn new(page_no: u32, page_size: u32) -> (p: Page)
        ensures
            p == (Page { page_no, page_size }),
    {
        Page { page_no, page_size }
    }
}

/// Number of pages of at most `max` items that hold `total` items.
pub open spec fn pages_needed(total: int, max: int) -> int
    recommends
        max > 0,
{
    (total + max - 1) / max
}

/// Splits a count of items into consecutive pages of at most
/// `max_page_size` items, numbered from `page_no` on.
#[derive(Debug)]
pub struct Paginator {
    page_no: u32,
    max_page_size: u32,
    remaining: u32,
}

impl Paginator {
    pub closed spec fn next_no(&self) -> int {
        self.page_no as int
    }

    pub closed spec fn max_size(&self) -> int {
        self.max_page_size as int
    }

    pub closed spec fn left(&self) -> int {
        self.remaining as int
    }

    /// The page numbers still to come fit in a `u32` and pages are non-empty.
    pub open spec fn wf(&self) -> bool {
        &&& self.max_size() > 0
        &&& self.next_no() + pages_needed(self.left(), self.max_size()) <= u32::MAX
    }

    pub fn new(page_no: u32, max_page_size: u32, remaining: u32) -> (p: Paginator)
        requires
            max_page_size > 0,
            page_no + pages_needed(remaining as int, max_page_size as int) <= u32::MAX,
        ensures
            p.wf(),
            p.next_no() == page_no,
            p.max_size() == max_page_size,
            p.left() == remaining,
    {
        Paginator { page_no, max_page_size, remaining }
    }

    /// The next page: `None` once nothing remains, else a page of
    /// `min(remaining, max_page_size)` items numbered with the current page
    /// number, which then advances by one.
    pub fn next_page(&mut self) -> (r: Option<Page>)
        requires
            old(self).wf(),
        ensures
            final(self).wf(),
            final(self).max_size() == old(self).max_size(),
            old(self).left() == 0 ==> r is None && *final(self) == *old(self),
            old(self).left() > 0 ==> {
                let size = if old(self).left() <= old(self).max_size() {
                    old(self).left()
                } else {
                    old(self).max_size()
                };
                &&& r == Some(Page { page_no: old(self).next_no() as u32, page_size: size as u32 })
                &&& final(self).next_no() == old(self).next_no() + 1
                &&& final(self).left() == old(self).left() - size
                &&& pages_needed(final(self).left(), final(self).max_size()) == pages_needed(
                    old(self).left(),
                    old(self).max_size(),
                ) - 1
            },
    {
        let page_no = self.page_no;
        if self.remaining == 0 {
            return None;
        }
        proof {
            lemma_pages_step(self.remaining as int, self.max_page_size as int);
        }
        if self.remaining <= self.max_page_size {
            let size = self.remaining;
            self.page_no = self.page_no + 1;
            self.remaining = 0;
            Some(Page::new(page_no, size))
        } else {
            self.page_no = self.page_no + 1;
            self.remaining = self.remaining - self.max_page_size;
            Some(Page::new(page_no, self.max_page_size))
        }
    }
}

proof fn lemma_pages_step(total: int, max: int)
    requires
        total > 0,
        max > 0,
    ensures
        pages_needed(total, max) >= 1,
        total <= max ==> pages_needed(total, max) == 1,
        total <= max ==> pages_needed(0, max) == 0,
        total > max ==> pages_needed(total - max, max) == pages_needed(total, max) - 1,
{
    assert(pages_needed(total, max) >= 1) by (nonlinear_arith)
        requires
            total > 0,
            max > 0,
            pages_needed(total, max) == (total + max - 1) / max,
    ;
    if total <= max {
        assert(pages_needed(total, max) == 1) by (nonlinear_arith)
            requires
                0 < total <= max,
                pages_needed(total, max) == (total + max - 1) / max,
        ;
        assert(pages_needed(0, max) == 0) by (nonlinear_arith)
            requires
                max > 0,
                pages_needed(0, max) == (max - 1) / max,
        ;
    } else {
        vstd::arithmetic::div_mod::lemma_div_plus_one(total - 1, max);
    }
}

/// Sum of the sizes of the pages in `s`.
pub open spec fn sum_sizes(s: Seq<Page>) -> int
    decreases s.len(),
{
    if s.len() == 0 {
        0
    } else {
        sum_sizes(s.drop_last()) + s.last().page_size
    }
}

/// All pages that hold `total` items, at most `max_page_size` each, numbered
/// from `first_page` on: each page is full but possibly the last.
pub fn plan_pages(first_page: u32, max_page_size: u32, total: u32) -> (r: Vec<Page>)
    requires
        max_page_size > 0,
        first_page + pages_needed(total as int, max_page_size as int) <= u32::MAX,
    ensures
        r.len() == pages_needed(total as int, max_page_size as int),
        sum_sizes(r@) == total,
        forall|i: int|
            0 <= i < r.len() ==> {
                &&& #[trigger] r@[i].page_no == first_page + i
                &&& 1 <= r@[i].page_size <= max_page_size
                &&& i + 1 < r.len() ==> r@[i].page_size == max_page_size
            },
{
    let mut paginator = Paginator::new(first_page, max_page_size, total);
    let mut pages: Vec<Page> = Vec::new();
    loop
        invariant
            paginator.wf(),
            paginator.max_size() == max_page_size,
            paginator.next_no() == first_page + pages.len(),
            sum_sizes(pages@) + paginator.left() == total,
            pages.len() + pages_needed(paginator.left(), max_page_size as int) == pages_needed(
                total as int,
                max_page_size as int,
            ),
            forall|i: int|
                0 <= i < pages.len() ==> {
                    &&& #[trigger] pages@[i].page_no == first_page + i
                    &&& 1 <= pages@[i].page_size <= max_page_size
                    &&& (i + 1 < pages.len() || paginator.left() > 0) ==> pages@[i].page_size
                        == max_page_size
                },
        decreases paginator.left(),
    {
        let ghost before = pages@;
        match paginator.next_page() {
            Some(page) => {
                pages.push(page);
                proof {
                    assert(pages@.drop_last() == before);
                }
            },
            None => {
                proof {
                    vstd::arithmetic::div_mod::lemma_div_is_ordered_by_denominator(0, 1, max_page_size as int);
                    assert(pages_needed(0, max_page_size as int) == 0) by (nonlinear_arith)
                        requires
                            max_page_size > 0,
                            pages_needed(0, max_page_size as int) == (max_page_size - 1) / (max_page_size as int),
                    ;
                }
                return pages;
            },
        }
    }
}

/// The page size to ask of an upstream listing that serves pages of
/// `max_page_size` items for `page`: a short page that is not the first
/// one is fetched whole, as the upstream numbers pages by their size.
pub fn requested_page_size(page: Page, max_page_size: u32, first_page: u32) -> (r: u32)
    ensures
        r == if page.page_size < max_page_size && page.page_no != first_page {
            max_page_size
        } else {
            page.page_size
        },
{
    if page.page_size < max_page_size && page.page_no != first_page {
        max_page_size
    } else {
        page.page_size
    }
}

/// The first `n` items of `v`, or all of them when there are fewer.
pub fn take_first_n<T>(v: Vec<T>, n: u32) -> (r: Vec<T>)
    ensures
        r@ == if n < v.len() {
            v@.take(n as int)
        } else {
            v@
        },
{
    let mut v = v;
    if (n as usize) < v.len() {
        v.truncate(n as usize);
    }
    v
}

/// What one fetched page contributes to the listing: its items in the
/// server's order, at most `page_size` of them, or nothing when the fetch
/// failed.
pub fn page_items<T>(fetched: Result<Vec<T>>, page_size: u32) -> (r: Vec<T>)
    ensures
        match fetched {
            Ok(v) => r@ == if page_size < v.len() {
                v@.take(page_size as int)
            } else {
                v@
            },
            Err(_) => r@.len() == 0,
        },
{
    match fetched {
        Ok(v) => take_first_n(v, page_size),
        Err(_) => Vec::new(),
    }
}

} // verus!
