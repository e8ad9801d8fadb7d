//! A time-bounded cache of the most recent blockhash, so that a trade need
//! not wait for a network round trip.
use vstd::prelude::*;
use crate::address::Address;
use crate::reserves::saturating_sub_spec;

verus! {

/// A cached blockhash and when it was fetched, in milliseconds.
#[derive(Clone, Copy, Debug, PartialEq, Eq)]
pub struct CachedAnchor {
    pub anchor: Address,
    pub captured_at_ms: u64,
}

/// The cache: at most one anchor, valid for `max_age_ms` after capture.
pub struct BlockhashCache {
    cached: Option<CachedAnchor>,
    max_age_ms: u64,
}

/// The cached anchor, if there is one and it is younger than `max_age`.
/// A clock reading earlier than the capture counts as age zero.
pub open spec fn fresh_anchor(cached: Option<CachedAnchor>, max_age: u64, now: u64) -> Option<
    Address,
> {
    match cached {
        Some(c) => if saturating_sub_spec(now, c.captured_at_ms) < max_age {
            Some(c.anchor)
        } else {
            None
        },
        None => None,
    }
}

impl BlockhashCache {
    /// The cached anchor, if any.
    pub closed spec fn cached(&self) -> Option<CachedAnchor> {
        self.cached
    }

    /// How long an anchor stays valid, in milliseconds.
    pub closed spec fn max_age(&self) -> u64 {
        self.max_age_ms
    }

    /// An empty cache whose anchors live `max_age_ms`.
    pub fn new(max_age_ms: u64) -> (r: BlockhashCache)
        ensures
            r.cached() == None::<CachedAnchor>,
            r.max_age() == max_age_ms,
    {
        BlockhashCache { cached: None, max_age_ms }
    }

    /// The anchor to use at `now_ms` without a fetch, or `None` when a fresh
    /// one must be fetched (and then recorded with `record_blockhash`).
    pub fn get_latest_blockhash(&self, now_ms: u64) -> (r: Option<Address>)
        ensures
            r == fresh_anchor(self.cached(), self.max_age(), now_ms),
    {
        match self.cached {
            Some(c) => {
                if now_ms.saturating_sub(c.captured_at_ms) < self.max_age_ms {
                    Some(c.anchor)
                } else {
                    None
                }
            },
            None => None,
        }
    }

    /// Replaces the cached anchor with one fetched at `now_ms`.
    pub fn record_blockhash(&mut self, anchor: Address, now_ms: u64)
        ensures
            final(self).cached() == Some(CachedAnchor { anchor, captured_at_ms: now_ms }),
            final(self).max_age() == old(self).max_age(),
    {
        self.cached = Some(CachedAnchor { anchor, captured_at_ms: now_ms });
    }
}

/// Once an anchor is recorded at `t0`, a lookup at any `t1` within the
/// lifetime returns that same anchor, so no fetch happens; a lookup once the
/// lifetime is over returns nothing, so exactly one new fetch happens.
pub proof fn lemma_cache_freshness(anchor: Address, max_age: u64, t0: u64, t1: u64)
    ensures
        t0 <= t1 && t1 - t0 < max_age ==> fresh_anchor(
            Some(CachedAnchor { anchor, captured_at_ms: t0 }),
            max_age,
            t1,
        ) == Some(anchor),
        t1 >= t0 + max_age ==> fresh_anchor(
            Some(CachedAnchor { anchor, captured_at_ms: t0 }),
            max_age,
            t1,
        ) == None::<Address>,
{
}

} // verus!
