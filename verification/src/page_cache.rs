//! Bounded cache of search-result pages for the active keyword.
//!
//! Page numbers grow as the user pages forward, so the entry with the
//! lowest page number is the oldest and is the one evicted on overflow.

use vstd::prelude::*;
use crate::search::SearchResult;

verus! {

/// Number of pages the cache keeps.
pub const PAGE_CACHE_CAPACITY: usize = 10;

/// One cached page.
pub struct PageEntry {
    pub page: usize,
    pub results: Vec<SearchResult>,
}

/// Cache of recently fetched pages, at most one entry per page number.
pub struct PageCache {
    pub entries: Vec<PageEntry>,
}

/// `i` is the first index of the smallest page number in `s`.
pub open spec fn is_first_min_page(s: Seq<PageEntry>, i: int) -> bool {
    &&& 0 <= i < s.len()
    &&& forall|j: int| 0 <= j < s.len() ==> s[i].page <= #[trigger] s[j].page
    &&& forall|j: int| 0 <= j < i ==> s[i].page < #[trigger] s[j].page
}

/// Index of the first entry with the smallest page number.
pub open spec fn first_min_page_index(s: Seq<PageEntry>) -> int {
    choose|i: int| is_first_min_page(s, i)
}

/// Every non-empty run of entries has a first index of the smallest page.
pub proof fn lemma_first_min_page_exists(s: Seq<PageEntry>)
    requires
        s.len() > 0,
    ensures
        is_first_min_page(s, first_min_page_index(s)),
    decreases s.len(),
{
    if s.len() == 1 {
        assert(is_first_min_page(s, 0));
    } else {
        let sub = s.drop_last();
        lemma_first_min_page_exists(sub);
        let w = first_min_page_index(sub);
        assert(is_first_min_page(sub, w));
        let n = s.len() as int;
        if s[w].page <= s[n - 1].page {
            assert forall|j: int| 0 <= j < n implies s[w].page <= #[trigger] s[j].page by {
                if j < n - 1 {
                    assert(sub[j] == s[j]);
                }
            }
            assert forall|j: int| 0 <= j < w implies s[w].page < #[trigger] s[j].page by {
                assert(sub[j] == s[j]);
            }
            assert(is_first_min_page(s, w));
        } else {
            assert forall|j: int| 0 <= j < n - 1 implies s[n - 1].page < #[trigger] s[j].page by {
                assert(sub[j] == s[j]);
            }
            assert(is_first_min_page(s, n - 1));
        }
    }
}

/// What an insert leaves in the cache: the page's old entry replaced by
/// the new one at the most-recent position, and on overflow the entry
/// with the lowest page number — possibly the new one — evicted.
pub open spec fn spec_insert_entries(
    pre: PageCache,
    page: usize,
    results: Vec<SearchResult>,
) -> Seq<PageEntry> {
    let base = if pre.contains_page(page as int) {
        pre.entries@.remove(pre.index_of(page as int))
    } else {
        pre.entries@
    };
    let grown = base.push(PageEntry { page, results });
    if grown.len() > PAGE_CACHE_CAPACITY {
        grown.remove(first_min_page_index(grown))
    } else {
        grown
    }
}

/// Inserting a fresh page into a full cache leaves it exactly full, and
/// the entry evicted is the first with the lowest page number. Under a
/// forward page traversal the lowest page number is the oldest page.
pub proof fn lemma_overflow_insert_evicts_lowest(
    pre: PageCache,
    page: usize,
    results: Vec<SearchResult>,
)
    requires
        pre.wf(),
        pre.entries@.len() == PAGE_CACHE_CAPACITY,
        !pre.contains_page(page as int),
    ensures
        spec_insert_entries(pre, page, results).len() == PAGE_CACHE_CAPACITY,
        is_first_min_page(
            pre.entries@.push(PageEntry { page, results }),
            first_min_page_index(pre.entries@.push(PageEntry { page, results })),
        ),
{
    let grown = pre.entries@.push(PageEntry { page, results });
    lemma_first_min_page_exists(grown);
    grown.remove_ensures(first_min_page_index(grown));
}

impl PageCache {
    /// At most one entry per page, and never more than the capacity.
    pub open spec fn wf(self) -> bool {
        &&& self.entries@.len() <= PAGE_CACHE_CAPACITY
        &&& forall|i: int, j: int|
            0 <= i < j < self.entries@.len() ==> #[trigger] self.entries@[i].page
                != #[trigger] self.entries@[j].page
    }

    /// A page is cached.
    pub open spec fn contains_page(self, p: int) -> bool {
        exists|i: int| 0 <= i < self.entries@.len() && #[trigger] self.entries@[i].page == p
    }

    /// Index of a cached page (meaningful only when `contains_page(p)`).
    pub open spec fn index_of(self, p: int) -> int {
        choose|i: int| 0 <= i < self.entries@.len() && #[trigger] self.entries@[i].page == p
    }

    /// The cached results of page `p` (meaningful only when `contains_page(p)`).
    pub open spec fn results_of(self, p: int) -> Seq<SearchResult> {
        self.entries@[self.index_of(p)].results@
    }

    /// An empty cache.
    pub fn new() -> (r: PageCache)
        ensures
            r.wf(),
            r.entries@.len() == 0,
    {
        PageCache { entries: Vec::new() }
    }

    /// Forget every page (the active keyword changed).
    pub fn clear(&mut self)
        ensures
            final(self).wf(),
            final(self).entries@.len() == 0,
    {
        self.entries.clear();
    }

    fn position_of(&self, page: usize) -> (r: Option<usize>)
        ensures
            match r {
                Some(i) => i < self.entries@.len() && self.entries@[i as int].page == page,
                None => !self.contains_page(page as int),
            },
    {
        let n = self.entries.len();
        let mut i: usize = 0;
        while i < n
            invariant
                n == self.entries@.len(),
                i <= n,
                forall|k: int| 0 <= k < i ==> #[trigger] self.entries@[k].page != page,
            decreases n - i,
        {
            if self.entries[i].page == page {
                return Some(i);
            }
            i = i + 1;
        }
        None
    }

    /// Look a page up.
    pub fn get(&self, page: usize) -> (r: Option<&Vec<SearchResult>>)
        requires
            self.wf(),
        ensures
            match r {
                Some(v) => self.contains_page(page as int) && v@ == self.results_of(page as int),
                None => !self.contains_page(page as int),
            },
    {
        match self.position_of(page) {
            Some(i) => {
                proof {
                    let w = self.index_of(page as int);
                    assert(0 <= w < self.entries@.len() && self.entries@[w].page == page);
                    assert(w == i);
                }
                Some(&self.entries[i].results)
            },
            None => None,
        }
    }

    fn evict_oldest(&mut self)
        requires
            old(self).entries@.len() > 0,
        ensures
            is_first_min_page(old(self).entries@, first_min_page_index(old(self).entries@)),
            final(self).entries@ == old(self).entries@.remove(
                first_min_page_index(old(self).entries@),
            ),
    {
        let n = self.entries.len();
        let mut best: usize = 0;
        let mut i: usize = 1;
        while i < n
            invariant
                n == self.entries@.len(),
                best < i <= n,
                forall|j: int|
                    0 <= j < i ==> self.entries@[best as int].page
                        <= #[trigger] self.entries@[j].page,
                forall|j: int|
                    0 <= j < best ==> self.entries@[best as int].page
                        < #[trigger] self.entries@[j].page,
            decreases n - i,
        {
            if self.entries[i].page < self.entries[best].page {
                best = i;
            }
            i = i + 1;
        }
        proof {
            assert(is_first_min_page(self.entries@, best as int));
            let w = first_min_page_index(self.entries@);
            assert(is_first_min_page(self.entries@, w));
            if w < best {
                assert(self.entries@[w].page < self.entries@[w].page);
            }
            if best < w {
                assert(self.entries@[best as int].page < self.entries@[best as int].page);
            }
            assert(w == best);
        }
        self.entries.remove(best);
    }

    /// Store a page. An already-cached page is replaced (it moves to the
    /// most-recent position); on overflow the entry with the lowest page
    /// number — possibly the one just inserted — is evicted.
    pub fn insert(&mut self, page: usize, results: Vec<SearchResult>)
        requires
            old(self).wf(),
        ensures
            final(self).wf(),
            final(self).entries@ == spec_insert_entries(*old(self), page, results),
    {
        match self.position_of(page) {
            Some(i) => {
                proof {
                    let w = self.index_of(page as int);
                    assert(0 <= w < self.entries@.len() && self.entries@[w].page == page);
                    assert(w == i);
                    self.entries@.remove_ensures(i as int);
                }
                let ghost pre = self.entries@;
                self.entries.remove(i);
                proof {
                    let s2 = self.entries@;
                    assert forall|k: int| 0 <= k < s2.len() implies #[trigger] s2[k].page
                        != page by {
                        if k < i {
                            assert(s2[k] == pre[k]);
                        } else {
                            assert(s2[k] == pre[k + 1]);
                        }
                    }
                    assert forall|a: int, b: int| 0 <= a < b < s2.len() implies #[trigger] s2[a].page
                        != #[trigger] s2[b].page by {
                        if a < i {
                            assert(s2[a] == pre[a]);
                        } else {
                            assert(s2[a] == pre[a + 1]);
                        }
                        if b < i {
                            assert(s2[b] == pre[b]);
                        } else {
                            assert(s2[b] == pre[b + 1]);
                        }
                    }
                }
            },
            None => {},
        }
        let ghost base = self.entries@;
        self.entries.push(PageEntry { page, results });
        proof {
            let s3 = self.entries@;
            assert forall|a: int, b: int| 0 <= a < b < s3.len() implies #[trigger] s3[a].page
                != #[trigger] s3[b].page by {
                if b < base.len() {
                    assert(s3[a] == base[a] && s3[b] == base[b]);
                } else {
                    assert(s3[a] == base[a] && s3[b].page == page);
                }
            }
        }
        if self.entries.len() > PAGE_CACHE_CAPACITY {
            let ghost grown = self.entries@;
            self.evict_oldest();
            proof {
                let m = first_min_page_index(grown);
                grown.remove_ensures(m);
                let s4 = self.entries@;
                assert forall|a: int, b: int| 0 <= a < b < s4.len() implies #[trigger] s4[a].page
                    != #[trigger] s4[b].page by {
                    if a < m {
                        assert(s4[a] == grown[a]);
                    } else {
                        assert(s4[a] == grown[a + 1]);
                    }
                    if b < m {
                        assert(s4[b] == grown[b]);
                    } else {
                        assert(s4[b] == grown[b + 1]);
                    }
                }
            }
        }
    }
}

} // verus!
