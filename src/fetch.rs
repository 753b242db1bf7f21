//! Mirror failover: an ordered list of base URLs and a shared index of the
//! mirror in use, which moves forward after a failure and never back.

use vstd::prelude::*;

use std::sync::atomic::{AtomicUsize, Ordering};

verus! {

/// The index that a failure moves the mirror index to, or `None` when it
/// already stands at `last`, the last mirror.
pub open spec fn next_index(index: usize, last: usize) -> Option<usize> {
    if index < last {
        Some((index + 1) as usize)
    } else {
        None
    }
}

/// The mirror in use for a stored index: the index itself, held to the last mirror.
pub open spec fn clamped(index: usize, last: usize) -> usize {
    if index < last {
        index
    } else {
        last
    }
}

/// The index after `n` failures, starting from `index`.
pub open spec fn index_after_failures(index: usize, last: usize, n: nat) -> usize
    decreases n,
{
    if n == 0 {
        index
    } else {
        let prev = index_after_failures(index, last, (n - 1) as nat);
        match next_index(prev, last) {
            Some(k) => k,
            None => prev,
        }
    }
}

/// One step of the failover counter.
pub fn next_base_url_index(index: usize, last: usize) -> (r: Option<usize>)
    ensures
        r == next_index(index, last),
{
    if index < last {
        Some(index + 1)
    } else {
        None
    }
}

/// However many failures are observed, the mirror index never decreases and
/// never passes the last mirror.
pub proof fn lemma_mirror_index_monotone_bounded(index: usize, last: usize, n: nat)
    requires
        index <= last,
    ensures
        index <= index_after_failures(index, last, n) <= last,
        index_after_failures(index, last, n) <= index_after_failures(index, last, n + 1),
    decreases n,
{
    if n > 0 {
        lemma_mirror_index_monotone_bounded(index, last, (n - 1) as nat);
    }
}

/// The base URLs, in order of preference, and the index of the one in use.
pub struct Mirrors {
    base_urls: Vec<String>,
    index: AtomicUsize,
}

impl Mirrors {
    pub closed spec fn urls(&self) -> Seq<String> {
        self.base_urls@
    }

    pub open spec fn wf(&self) -> bool {
        self.urls().len() > 0
    }

    /// Starts at the first mirror.
    pub fn new(base_urls: Vec<String>) -> (r: Self)
        requires
            base_urls@.len() > 0,
        ensures
            r.urls() == base_urls@,
            r.wf(),
    {
        Mirrors { base_urls, index: AtomicUsize::new(0) }
    }

    /// The number of mirrors.
    pub fn len(&self) -> (r: usize)
        ensures
            r == self.urls().len(),
    {
        self.base_urls.len()
    }

    /// The base URL at position `i`.
    pub fn url(&self, i: usize) -> (r: &String)
        requires
            i < self.urls().len(),
        ensures
            *r == self.urls()[i as int],
    {
        &self.base_urls[i]
    }

    /// The position of the mirror in use; it always names a mirror.
    pub fn current_index(&self) -> (r: usize)
        requires
            self.wf(),
        ensures
            r < self.urls().len(),
    {
        let last = self.base_urls.len() - 1;
        let stored = self.index.load(Ordering::Relaxed);
        clamp(stored, last)
    }

    /// Moves to the next mirror, unless the last one is in use. One
    /// compare-and-swap from the value read to its successor: where another
    /// caller moved the index in between, the index has already moved on.
    pub fn advance(&self)
        requires
            self.wf(),
    {
        let last = self.base_urls.len() - 1;
        let stored = self.index.load(Ordering::Relaxed);
        if let Some(next) = next_base_url_index(stored, last) {
            let _ = self.index.compare_exchange(stored, next, Ordering::Relaxed, Ordering::Relaxed);
        }
    }

    /// After a request to mirror `tried` failed: moves on if that mirror is
    /// still the one in use, and tells whether another mirror is now in use,
    /// which the request is then retried on.
    pub fn failover(&self, tried: usize) -> (retry: bool)
        requires
            self.wf(),
    {
        let now = self.current_index();
        if now == tried {
            self.advance();
            self.current_index() != tried
        } else {
            true
        }
    }
}

/// Holds an index to the last mirror.
pub fn clamp(index: usize, last: usize) -> (r: usize)
    ensures
        r == clamped(index, last),
{
    if index < last {
        index
    } else {
        last
    }
}

/// The base URL in use.
pub fn get_base_url(mirrors: &Mirrors) -> (r: String)
    requires
        mirrors.wf(),
    ensures
        mirrors.urls().contains(r),
{
    let i = mirrors.current_index();
    let r = mirrors.url(i).clone();
    assert(mirrors.urls()[i as int] == r);
    r
}

/// Moves to the next mirror for all later requests, unless the last one is in use.
pub fn switch_to_next_base_url(mirrors: &Mirrors)
    requires
        mirrors.wf(),
{
    mirrors.advance();
}

} // verus!
