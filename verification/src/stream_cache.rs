//! TTL cache of resolved stream URLs, keyed by search keyword.
//!
//! An entry older than the configured lifetime is treated as absent but is
//! not eagerly swept: it disappears when a later insert overwrites it or
//! capacity eviction removes it.

use vstd::prelude::*;

verus! {

/// One cached resolution.
pub struct StreamEntry {
    pub keyword: String,
    pub url: String,
    /// Timestamp of the resolution, in seconds.
    pub resolved_at: u64,
}

/// Bounded TTL cache of resolved URLs, at most one entry per keyword.
pub struct StreamCache {
    pub entries: Vec<StreamEntry>,
    /// Greatest number of entries kept.
    pub capacity: usize,
    /// Lifetime of an entry, in seconds.
    pub ttl: u64,
}

/// `i` is the first index of the oldest `resolved_at` in `s`.
pub open spec fn is_first_oldest(s: Seq<StreamEntry>, i: int) -> bool {
    &&& 0 <= i < s.len()
    &&& forall|j: int| 0 <= j < s.len() ==> s[i].resolved_at <= #[trigger] s[j].resolved_at
    &&& forall|j: int| 0 <= j < i ==> s[i].resolved_at < #[trigger] s[j].resolved_at
}

/// Index of the first entry with the oldest `resolved_at`.
pub open spec fn first_oldest_index(s: Seq<StreamEntry>) -> int {
    choose|i: int| is_first_oldest(s, i)
}

/// Every non-empty run of entries has a first-oldest index.
pub proof fn lemma_first_oldest_exists(s: Seq<StreamEntry>)
    requires
        s.len() > 0,
    ensures
        is_first_oldest(s, first_oldest_index(s)),
    decreases s.len(),
{
    if s.len() == 1 {
        assert(is_first_oldest(s, 0));
    } else {
        let sub = s.drop_last();
        lemma_first_oldest_exists(sub);
        let w = first_oldest_index(sub);
        assert(is_first_oldest(sub, w));
        let n = s.len() as int;
        if s[w].resolved_at <= s[n - 1].resolved_at {
            assert forall|j: int| 0 <= j < n implies s[w].resolved_at
                <= #[trigger] s[j].resolved_at by {
                if j < n - 1 {
                    assert(sub[j] == s[j]);
                }
            }
            assert forall|j: int| 0 <= j < w implies s[w].resolved_at
                < #[trigger] s[j].resolved_at by {
                assert(sub[j] == s[j]);
            }
            assert(is_first_oldest(s, w));
        } else {
            assert forall|j: int| 0 <= j < n - 1 implies s[n - 1].resolved_at
                < #[trigger] s[j].resolved_at by {
                assert(sub[j] == s[j]);
            }
            assert(is_first_oldest(s, n - 1));
        }
    }
}

/// What an insert leaves in the cache: nothing when a still-valid entry
/// for the keyword exists; otherwise the keyword's stale entry replaced
/// by the new one at the most-recent position, with the first-oldest
/// entry evicted on overflow.
pub open spec fn spec_insert_entries(
    pre: StreamCache,
    keyword: String,
    url: String,
    now: u64,
) -> Seq<StreamEntry> {
    if pre.contains_keyword(keyword@) && pre.entry_valid(pre.index_of(keyword@), now) {
        pre.entries@
    } else {
        let base = if pre.contains_keyword(keyword@) {
            pre.entries@.remove(pre.index_of(keyword@))
        } else {
            pre.entries@
        };
        let grown = base.push(StreamEntry { keyword, url, resolved_at: now });
        if grown.len() > pre.capacity {
            grown.remove(first_oldest_index(grown))
        } else {
            grown
        }
    }
}

/// Inserting a fresh keyword into a full cache leaves it exactly full:
/// one entry — the first with the oldest `resolved_at` — has made room
/// for the new one.
pub proof fn lemma_overflow_insert_keeps_capacity(
    pre: StreamCache,
    keyword: String,
    url: String,
    now: u64,
)
    requires
        pre.wf(),
        pre.entries@.len() == pre.capacity,
        !pre.contains_keyword(keyword@),
    ensures
        spec_insert_entries(pre, keyword, url, now).len() == pre.capacity,
        is_first_oldest(
            pre.entries@.push(StreamEntry { keyword, url, resolved_at: now }),
            first_oldest_index(pre.entries@.push(StreamEntry { keyword, url, resolved_at: now })),
        ),
{
    let grown = pre.entries@.push(StreamEntry { keyword, url, resolved_at: now });
    lemma_first_oldest_exists(grown);
    grown.remove_ensures(first_oldest_index(grown));
}

impl StreamCache {
    /// At most one entry per keyword, and never more than the capacity.
    pub open spec fn wf(self) -> bool {
        &&& self.entries@.len() <= self.capacity
        &&& forall|i: int, j: int|
            0 <= i < j < self.entries@.len() ==> #[trigger] self.entries@[i].keyword@
                != #[trigger] self.entries@[j].keyword@
    }

    /// A keyword has an entry, expired or not.
    pub open spec fn contains_keyword(self, kw: Seq<char>) -> bool {
        exists|i: int| 0 <= i < self.entries@.len() && #[trigger] self.entries@[i].keyword@ == kw
    }

    /// Index of a keyword's entry (meaningful only when `contains_keyword(kw)`).
    pub open spec fn index_of(self, kw: Seq<char>) -> int {
        choose|i: int| 0 <= i < self.entries@.len() && #[trigger] self.entries@[i].keyword@ == kw
    }

    /// The entry at index `i` is still within its lifetime at time `now`.
    pub open spec fn entry_valid(self, i: int, now: u64) -> bool {
        let e = self.entries@[i];
        e.resolved_at <= now && now - e.resolved_at < self.ttl
    }

    /// A lookup of `kw` at time `now` hits, and what it yields.
    pub open spec fn spec_lookup(self, kw: Seq<char>, now: u64) -> Option<Seq<char>> {
        if self.contains_keyword(kw) && self.entry_valid(self.index_of(kw), now) {
            Some(self.entries@[self.index_of(kw)].url@)
        } else {
            None
        }
    }

    /// An empty cache with the given bounds.
    pub fn new(capacity: usize, ttl: u64) -> (r: StreamCache)
        ensures
            r.wf(),
            r.entries@.len() == 0,
            r.capacity == capacity,
            r.ttl == ttl,
    {
        StreamCache { entries: Vec::new(), capacity, ttl }
    }

    fn position_of(&self, keyword: &str) -> (r: Option<usize>)
        ensures
            match r {
                Some(i) => i < self.entries@.len() && self.entries@[i as int].keyword@ == keyword@,
                None => !self.contains_keyword(keyword@),
            },
    {
        let n = self.entries.len();
        let mut i: usize = 0;
        while i < n
            invariant
                n == self.entries@.len(),
                i <= n,
                forall|k: int| 0 <= k < i ==> #[trigger] self.entries@[k].keyword@ != keyword@,
            decreases n - i,
        {
            if crate::text::str_eq(self.entries[i].keyword.as_str(), keyword) {
                return Some(i);
            }
            i = i + 1;
        }
        None
    }

    /// Look a keyword up at time `now`: a hit only while the entry is
    /// within its lifetime.
    pub fn lookup(&self, keyword: &str, now: u64) -> (r: Option<String>)
        requires
            self.wf(),
        ensures
            match r {
                Some(url) => self.spec_lookup(keyword@, now) == Some(url@),
                None => self.spec_lookup(keyword@, now) is None,
            },
    {
        match self.position_of(keyword) {
            Some(i) => {
                proof {
                    let w = self.index_of(keyword@);
                    assert(0 <= w < self.entries@.len() && self.entries@[w].keyword@ == keyword@);
                    assert(w == i);
                }
                let e = &self.entries[i];
                if e.resolved_at <= now && now - e.resolved_at < self.ttl {
                    Some(e.url.clone())
                } else {
                    None
                }
            },
            None => None,
        }
    }

    fn evict_oldest(&mut self)
        requires
            old(self).entries@.len() > 0,
        ensures
            final(self).capacity == old(self).capacity,
            final(self).ttl == old(self).ttl,
            is_first_oldest(old(self).entries@, first_oldest_index(old(self).entries@)),
            final(self).entries@ == old(self).entries@.remove(
                first_oldest_index(old(self).entries@),
            ),
    {
        let n = self.entries.len();
        let mut best: usize = 0;
        let mut i: usize = 1;
        while i < n
            invariant
                n == self.entries@.len(),
                best < i <= n,
                forall|j: int|
                    0 <= j < i ==> self.entries@[best as int].resolved_at
                        <= #[trigger] self.entries@[j].resolved_at,
                forall|j: int|
                    0 <= j < best ==> self.entries@[best as int].resolved_at
                        < #[trigger] self.entries@[j].resolved_at,
            decreases n - i,
        {
            if self.entries[i].resolved_at < self.entries[best].resolved_at {
                best = i;
            }
            i = i + 1;
        }
        proof {
            assert(is_first_oldest(self.entries@, best as int));
            let w = first_oldest_index(self.entries@);
            assert(is_first_oldest(self.entries@, w));
            if w < best {
                assert(self.entries@[w].resolved_at < self.entries@[w].resolved_at);
            }
            if best < w {
                assert(self.entries@[best as int].resolved_at
                    < self.entries@[best as int].resolved_at);
            }
            assert(w == best);
        }
        self.entries.remove(best);
    }

    /// Store a freshly resolved URL at time `now`, unless a still-valid
    /// entry for the keyword already exists (a concurrent resolution may
    /// have won; re-checking avoids needless eviction churn). A stale entry
    /// for the keyword is overwritten; on overflow the entry with the
    /// oldest `resolved_at` is evicted.
    pub fn insert(&mut self, keyword: String, url: String, now: u64)
        requires
            old(self).wf(),
        ensures
            final(self).wf(),
            final(self).capacity == old(self).capacity,
            final(self).ttl == old(self).ttl,
            final(self).entries@ == spec_insert_entries(*old(self), keyword, url, now),
    {
        let ghost kw = keyword@;
        match self.position_of(keyword.as_str()) {
            Some(i) => {
                proof {
                    let w = self.index_of(kw);
                    assert(0 <= w < self.entries@.len() && self.entries@[w].keyword@ == kw);
                    assert(w == i);
                    self.entries@.remove_ensures(i as int);
                }
                let e = &self.entries[i];
                if e.resolved_at <= now && now - e.resolved_at < self.ttl {
                    // A still-valid entry was written concurrently: keep it.
                    return ;
                }
                let ghost pre = self.entries@;
                self.entries.remove(i);
                proof {
                    let s2 = self.entries@;
                    assert forall|k: int| 0 <= k < s2.len() implies #[trigger] s2[k].keyword@
                        != kw by {
                        if k < i {
                            assert(s2[k] == pre[k]);
                        } else {
                            assert(s2[k] == pre[k + 1]);
                        }
                    }
                    assert forall|a: int, b: int|
                        0 <= a < b < s2.len() implies #[trigger] s2[a].keyword@
                        != #[trigger] s2[b].keyword@ by {
                        if a < i {
                            assert(s2[a] == pre[a]);
                        } else {
                            assert(s2[a] == pre[a + 1]);
                        }
                        if b < i {
                            assert(s2[b] == pre[b]);
                        } else {
                            assert(s2[b] == pre[b + 1]);
                        }
                    }
                }
            },
            None => {},
        }
        let ghost base = self.entries@;
        self.entries.push(StreamEntry { keyword, url, resolved_at: now });
        proof {
            let s3 = self.entries@;
            assert forall|a: int, b: int| 0 <= a < b < s3.len() implies #[trigger] s3[a].keyword@
                != #[trigger] s3[b].keyword@ by {
                if b < base.len() {
                    assert(s3[a] == base[a] && s3[b] == base[b]);
                } else {
                    assert(s3[a] == base[a] && s3[b].keyword@ == kw);
                }
            }
        }
        if self.entries.len() > self.capacity {
            let ghost grown = self.entries@;
            self.evict_oldest();
            proof {
                let m = first_oldest_index(grown);
                grown.remove_ensures(m);
                let s4 = self.entries@;
                assert forall|a: int, b: int|
                    0 <= a < b < s4.len() implies #[trigger] s4[a].keyword@
                    != #[trigger] s4[b].keyword@ by {
                    if a < m {
                        assert(s4[a] == grown[a]);
                    } else {
                        assert(s4[a] == grown[a + 1]);
                    }
                    if b < m {
                        assert(s4[b] == grown[b]);
                    } else {
                        assert(s4[b] == grown[b + 1]);
                    }
                }
            }
        }
    }
}

/// An entry past its lifetime is invisible: even though it may still be
/// physically present in the cache, a lookup at such a time misses.
pub proof fn lemma_expired_entry_hidden(c: StreamCache, kw: Seq<char>, now: u64)
    requires
        c.wf(),
        c.contains_keyword(kw),
        !c.entry_valid(c.index_of(kw), now),
    ensures
        c.spec_lookup(kw, now) is None,
{
}

} // verus!
