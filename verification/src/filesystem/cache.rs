//! Directory listing cache with a time to live and a bound on its size.
//!
//! Keys are absolute directory paths with `/` as separator. Times are in
//! milliseconds.

use vstd::prelude::*;
use vstd::string::{StrSliceExecFns, StringExecFns};
use crate::keyed::{distinct, index_of, lemma_index_of, lemma_index_of_own, lemma_index_of_prefix, lemma_index_of_remove};
use crate::rate_limiter::current_time_ms;

verus! {

/// Cached information about one directory entry.
#[derive(Debug, Clone)]
pub struct CachedFileInfo {
    pub name: String,
    pub path: String,
    pub size: u64,
    pub is_dir: bool,
    pub mode: u32,
    pub modified: u64,
}

/// A cached listing of one directory.
#[derive(Debug, Clone)]
pub struct CachedListing {
    pub path: String,
    pub entries: Vec<CachedFileInfo>,
    pub cached_at: u64,
}

/// Cache statistics for monitoring.
#[derive(Debug, Clone, Copy, PartialEq, Eq, Structural)]
pub struct CacheStats {
    pub total_entries: usize,
    pub valid_entries: usize,
    pub expired_entries: usize,
    pub max_entries: usize,
    pub ttl_secs: u64,
}

/// Whether `i` is the position of the last separator of `s`.
pub open spec fn is_last_slash(s: Seq<char>, i: int) -> bool {
    0 <= i < s.len() && s[i] == '/' && forall|j: int| i < j < s.len() ==> s[j] != '/'
}

/// Whether `s` holds a separator.
pub open spec fn has_slash(s: Seq<char>) -> bool {
    exists|i: int| 0 <= i < s.len() && s[i] == '/'
}

/// The parent of a path: what stands before its last separator, `/` for a
/// path directly below the root, the empty path for a relative path of one
/// component, and nothing for `/` and for the empty path.
pub open spec fn parent_of(s: Seq<char>) -> Option<Seq<char>> {
    if !has_slash(s) {
        if s.len() == 0 {
            None
        } else {
            Some(Seq::empty())
        }
    } else {
        let i = choose|i: int| is_last_slash(s, i);
        if i == 0 {
            if s.len() == 1 {
                None
            } else {
                Some(seq!['/'])
            }
        } else {
            Some(s.subrange(0, i))
        }
    }
}

/// The number of listings that are still valid at `now`.
pub open spec fn valid_count(listings: Seq<CachedListing>, now: u64, ttl: u64) -> nat
    decreases listings.len(),
{
    if listings.len() == 0 {
        0
    } else {
        valid_count(listings.drop_last(), now, ttl) + if elapsed(listings.last().cached_at, now)
            < ttl {
            1nat
        } else {
            0nat
        }
    }
}

/// Time elapsed since `cached_at` as seen at `now`; zero if the clock went back.
pub open spec fn elapsed(cached_at: u64, now: u64) -> int {
    if now >= cached_at {
        now - cached_at
    } else {
        0
    }
}

/// The parent of a path.
pub fn parent(path: &str) -> (r: Option<String>)
    ensures
        match r {
            Some(p) => parent_of(path@) == Some(p@),
            None => parent_of(path@).is_none(),
        },
{
    let n: usize = path.unicode_len();
    let mut i: usize = n;
    while i > 0
        invariant
            i <= n,
            n == path@.len(),
            forall|j: int| i <= j < n ==> path@[j] != '/',
        decreases i,
    {
        if path.get_char(i - 1) == '/' {
            let at: usize = i - 1;
            proof {
                assert(is_last_slash(path@, at as int));
                let c = choose|k: int| is_last_slash(path@, k);
                assert(c == at);
            }
            if at == 0 {
                if n == 1 {
                    return None;
                }
                let root = String::from_str("/");
                proof {
                    reveal_strlit("/");
                    assert(root@ =~= seq!['/']);
                }
                return Some(root);
            }
            return Some(String::from_str(path.substring_char(0, at)));
        }
        i = i - 1;
    }
    if n == 0 {
        None
    } else {
        let empty = String::new();
        Some(empty)
    }
}

/// Directory listing cache.
pub struct DirectoryCache {
    cache: Vec<CachedListing>,
    ttl_ms: u64,
    max_entries: usize,
}

impl DirectoryCache {
    /// The cached paths, in table order.
    pub closed spec fn keys(&self) -> Seq<Seq<char>> {
        Seq::new(self.cache@.len(), |i: int| self.cache@[i].path@)
    }

    /// No path is cached twice.
    pub closed spec fn wf(&self) -> bool {
        distinct(self.keys())
    }

    /// The time to live of a listing, in milliseconds.
    pub closed spec fn ttl(&self) -> u64 {
        self.ttl_ms
    }

    /// The largest number of listings kept.
    pub closed spec fn capacity(&self) -> usize {
        self.max_entries
    }

    /// The number of listings held, expired ones included.
    pub closed spec fn len(&self) -> nat {
        self.cache@.len()
    }

    /// The listing cached for a path, expired or not.
    pub closed spec fn listing(&self, path: Seq<char>) -> Option<CachedListing> {
        match index_of(self.keys(), path) {
            Some(i) => Some(self.cache@[i]),
            None => None,
        }
    }

    /// The listings held, in table order.
    pub closed spec fn listings(&self) -> Seq<CachedListing> {
        self.cache@
    }

    /// Whether `r` is what a lookup of `path` answers at time `now`: the
    /// cached entries while less than the time to live has passed since they
    /// were cached, and nothing for a path that is not cached or has expired.
    pub open spec fn answers(&self, path: Seq<char>, now: u64, r: Option<&Vec<CachedFileInfo>>) -> bool {
        match self.listing(path) {
            Some(l) => if elapsed(l.cached_at, now) < self.ttl() {
                r == Some(&l.entries)
            } else {
                r.is_none()
            },
            None => r.is_none(),
        }
    }

    /// The earliest caching time among the listings held is `t`.
    pub closed spec fn oldest_is(&self, t: u64) -> bool {
        forall|i: int| 0 <= i < self.cache@.len() ==> t <= (#[trigger] self.cache@[i]).cached_at
    }

    /// A cache with the default configuration: five seconds, 1000 listings.
    pub fn new() -> (c: Self)
        ensures
            c.wf(),
            c.len() == 0,
            c.ttl() == 5000,
            c.capacity() == 1000,
    {
        DirectoryCache::with_config(5000, 1000)
    }

    /// A cache with the given time to live (milliseconds) and capacity.
    pub fn with_config(ttl_ms: u64, max_entries: usize) -> (c: Self)
        ensures
            c.wf(),
            c.len() == 0,
            c.ttl() == ttl_ms,
            c.capacity() == max_entries,
            forall|p: Seq<char>| c.listing(p).is_none(),
    {
        let c = DirectoryCache { cache: Vec::new(), ttl_ms, max_entries };
        assert(c.keys() =~= Seq::<Seq<char>>::empty());
        c
    }

    fn find(&self, path: &str) -> (r: Option<usize>)
        ensures
            match r {
                Some(i) => index_of(self.keys(), path@) == Some(i as int) && i < self.cache@.len(),
                None => index_of(self.keys(), path@).is_none(),
            },
    {
        let mut i: usize = 0;
        let wanted: String = path.to_owned();
        let ghost keys = self.keys();
        assert(keys.subrange(0, 0) =~= Seq::<Seq<char>>::empty());
        while i < self.cache.len()
            invariant
                i <= self.cache@.len(),
                keys == self.keys(),
                keys.len() == self.cache@.len(),
                wanted@ == path@,
                index_of(keys.subrange(0, i as int), path@).is_none(),
            decreases self.cache@.len() - i,
        {
            proof {
                let next = keys.subrange(0, i + 1);
                assert(next.drop_last() =~= keys.subrange(0, i as int));
                assert(next.last() == self.cache@[i as int].path@);
            }
            if self.cache[i].path == wanted {
                proof {
                    lemma_index_of_prefix(keys, i + 1, path@);
                }
                return Some(i);
            }
            i = i + 1;
        }
        assert(keys.subrange(0, keys.len() as int) =~= keys);
        None
    }

    /// The listing of a directory as seen at `now`: the cached entries while
    /// less than the time to live has passed since they were cached.
    pub fn get_at(&self, path: &str, now: u64) -> (r: Option<&Vec<CachedFileInfo>>)
        ensures
            match self.listing(path@) {
                Some(l) => if elapsed(l.cached_at, now) < self.ttl() {
                    r == Some(&l.entries)
                } else {
                    r.is_none()
                },
                None => r.is_none(),
            },
    {
        match self.find(path) {
            Some(i) => {
                let listing = &self.cache[i];
                let age: u64 = if now >= listing.cached_at { now - listing.cached_at } else { 0 };
                if age < self.ttl_ms {
                    Some(&listing.entries)
                } else {
                    None
                }
            },
            None => None,
        }
    }

    /// The listing of a directory as seen now: the answer of `get_at` for the
    /// time the clock shows. A path that is not cached has no listing,
    /// whatever the clock says.
    pub fn get(&self, path: &str) -> (r: Option<&Vec<CachedFileInfo>>)
        ensures
            exists|now: u64| self.answers(path@, now, r),
            self.listing(path@).is_none() ==> r.is_none(),
            r.is_some() ==> r == Some(&self.listing(path@).unwrap().entries),
    {
        let now: u64 = current_time_ms();
        let r = self.get_at(path, now);
        assert(self.answers(path@, now, r));
        r
    }

    fn oldest(&self) -> (r: usize)
        requires
            self.cache@.len() > 0,
        ensures
            r < self.cache@.len(),
            self.oldest_is(self.cache@[r as int].cached_at),
    {
        let mut best: usize = 0;
        let mut i: usize = 1;
        while i < self.cache.len()
            invariant
                1 <= i <= self.cache@.len(),
                best < i,
                forall|j: int| 0 <= j < i ==> self.cache@[best as int].cached_at <= (
                #[trigger] self.cache@[j]).cached_at,
            decreases self.cache@.len() - i,
        {
            if self.cache[i].cached_at < self.cache[best].cached_at {
                best = i;
            }
            i = i + 1;
        }
        best
    }

    /// Caches a listing taken at `now`. At capacity, a listing with the
    /// earliest caching time is evicted first; then the listing replaces what
    /// was cached for the path.
    pub fn put_at(&mut self, path: String, entries: Vec<CachedFileInfo>, now: u64)
        requires
            old(self).wf(),
        ensures
            final(self).wf(),
            final(self).ttl() == old(self).ttl(),
            final(self).capacity() == old(self).capacity(),
            final(self).listing(path@).is_some(),
            final(self).listing(path@).unwrap().entries == entries,
            final(self).listing(path@).unwrap().cached_at == now,
            final(self).len() <= old(self).len() + 1,
            old(self).len() >= old(self).capacity() && old(self).len() > 0 ==> final(self).len()
                <= old(self).len(),
            forall|other: Seq<char>|
                other != path@ ==> {
                    ||| final(self).listing(other) == old(self).listing(other)
                    ||| (final(self).listing(other).is_none() && old(self).len() >= old(self).capacity() && old(self).listing(other).is_some() && old(self).oldest_is(
                        old(self).listing(other).unwrap().cached_at,
                    ))
                },
    {
        let ghost keys0 = self.keys();
        let ghost evicted: Option<Seq<char>> = None;
        if self.cache.len() >= self.max_entries && self.cache.len() > 0 {
            let victim = self.oldest();
            proof {
                evicted = Some(keys0[victim as int]);
                lemma_index_of_own(keys0, victim as int);
            }
            self.cache.remove(victim);
            proof {
                assert(self.keys() =~= keys0.remove(victim as int));
                lemma_index_of_remove(keys0, victim as int, path@);
                assert forall|other: Seq<char>| other != keys0[victim as int] implies self.listing(
                    other,
                ) == old(self).listing(other) by {
                    lemma_index_of_remove(keys0, victim as int, other);
                    lemma_index_of(keys0, other);
                }
                lemma_index_of_remove(keys0, victim as int, keys0[victim as int]);
            }
        }
        let ghost mid = *self;
        let ghost keys1 = self.keys();
        match self.find(path.as_str()) {
            Some(i) => {
                self.cache.remove(i);
                self.cache.insert(i, CachedListing { path, entries, cached_at: now });
                proof {
                    lemma_index_of(keys1, path@);
                    assert(self.keys() =~= keys1);
                    assert forall|other: Seq<char>| other != path@ implies self.listing(other)
                        == mid.listing(other) by {
                        lemma_index_of(keys1, other);
                    }
                }
            },
            None => {
                self.cache.push(CachedListing { path, entries, cached_at: now });
                proof {
                    lemma_index_of(keys1, path@);
                    assert(self.keys() =~= keys1.push(path@));
                    assert(self.keys().drop_last() =~= keys1);
                    assert forall|other: Seq<char>| other != path@ implies self.listing(other)
                        == mid.listing(other) by {
                        lemma_index_of(keys1, other);
                    }
                }
            },
        }
    }

    /// Caches a listing taken now.
    pub fn put(&mut self, path: String, entries: Vec<CachedFileInfo>)
        requires
            old(self).wf(),
        ensures
            final(self).wf(),
            forall|other: Seq<char>|
                other != path@ ==> final(self).listing(other) == old(self).listing(other) || final(self).listing(other).is_none(),
            final(self).ttl() == old(self).ttl(),
            final(self).capacity() == old(self).capacity(),
            final(self).listing(path@).is_some(),
            final(self).listing(path@).unwrap().entries == entries,
            final(self).len() <= old(self).len() + 1,
            old(self).len() >= old(self).capacity() && old(self).len() > 0 ==> final(self).len()
                <= old(self).len(),
    {
        let now: u64 = current_time_ms();
        self.put_at(path, entries, now);
    }

    fn remove_key(&mut self, path: &str)
        requires
            old(self).wf(),
        ensures
            final(self).wf(),
            final(self).ttl() == old(self).ttl(),
            final(self).capacity() == old(self).capacity(),
            final(self).listing(path@).is_none(),
            final(self).len() <= old(self).len(),
            forall|other: Seq<char>|
                other != path@ ==> final(self).listing(other) == old(self).listing(other),
    {
        let ghost keys0 = self.keys();
        match self.find(path) {
            Some(i) => {
                self.cache.remove(i);
                proof {
                    assert(self.keys() =~= keys0.remove(i as int));
                    lemma_index_of(keys0, path@);
                    lemma_index_of_remove(keys0, i as int, path@);
                    assert forall|other: Seq<char>| other != path@ implies self.listing(other)
                        == old(self).listing(other) by {
                        lemma_index_of_remove(keys0, i as int, other);
                        lemma_index_of(keys0, other);
                    }
                }
            },
            None => {},
        }
    }

    /// Drops the listing of a path and of its parent, whose set of children
    /// has changed with it. No other listing is touched.
    pub fn invalidate(&mut self, path: &str)
        requires
            old(self).wf(),
        ensures
            final(self).wf(),
            final(self).ttl() == old(self).ttl(),
            final(self).capacity() == old(self).capacity(),
            final(self).listing(path@).is_none(),
            parent_of(path@).is_some() ==> final(self).listing(parent_of(path@).unwrap()).is_none(),
            forall|other: Seq<char>|
                other != path@ && parent_of(path@) != Some(other) ==> final(self).listing(other)
                    == old(self).listing(other),
    {
        self.remove_key(path);
        match parent(path) {
            Some(p) => {
                self.remove_key(p.as_str());
            },
            None => {},
        }
    }

    /// Drops every listing.
    pub fn clear(&mut self)
        ensures
            final(self).wf(),
            final(self).len() == 0,
            final(self).ttl() == old(self).ttl(),
            final(self).capacity() == old(self).capacity(),
            forall|p: Seq<char>| final(self).listing(p).is_none(),
    {
        self.cache = Vec::new();
        assert(self.keys() =~= Seq::<Seq<char>>::empty());
    }

    /// Counts of valid and expired listings as seen at `now`.
    pub fn stats_at(&self, now: u64) -> (s: CacheStats)
        ensures
            s.total_entries == self.len(),
            s.valid_entries == valid_count(self.listings(), now, self.ttl()),
            s.valid_entries + s.expired_entries == s.total_entries,
            s.max_entries == self.capacity(),
            s.ttl_secs == self.ttl() / 1000,
    {
        let mut valid: usize = 0;
        let mut expired: usize = 0;
        let mut i: usize = 0;
        assert(self.cache@.subrange(0, 0) =~= Seq::<CachedListing>::empty());
        while i < self.cache.len()
            invariant
                i <= self.cache@.len(),
                valid + expired == i,
                valid == valid_count(self.cache@.subrange(0, i as int), now, self.ttl_ms),
            decreases self.cache@.len() - i,
        {
            proof {
                let next = self.cache@.subrange(0, i + 1);
                assert(next.drop_last() =~= self.cache@.subrange(0, i as int));
                assert(next.last() == self.cache@[i as int]);
            }
            let at: u64 = self.cache[i].cached_at;
            let age: u64 = if now >= at { now - at } else { 0 };
            if age < self.ttl_ms {
                valid = valid + 1;
            } else {
                expired = expired + 1;
            }
            i = i + 1;
        }
        assert(self.cache@.subrange(0, self.cache@.len() as int) =~= self.cache@);
        CacheStats {
            total_entries: self.cache.len(),
            valid_entries: valid,
            expired_entries: expired,
            max_entries: self.max_entries,
            ttl_secs: self.ttl_ms / 1000,
        }
    }

    /// Counts of valid and expired listings as seen now.
    pub fn stats(&self) -> (s: CacheStats)
        ensures
            s.total_entries == self.len(),
            s.valid_entries + s.expired_entries == s.total_entries,
            s.max_entries == self.capacity(),
            s.ttl_secs == self.ttl() / 1000,
    {
        let now: u64 = current_time_ms();
        self.stats_at(now)
    }
}

impl Default for DirectoryCache {
    fn default() -> (c: Self)
        ensures
            c.wf(),
            c.len() == 0,
    {
        DirectoryCache::new()
    }
}

} // verus!
