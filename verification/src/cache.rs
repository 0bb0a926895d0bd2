//! The cache manager: the last-fetched snapshot plus a staleness timestamp,
//! refreshed on read once the snapshot is older than a fixed threshold.
//!
//! The manager is a pure state machine over plain values: the caller supplies
//! the current time in whole seconds and, when a refresh is due, the fetched
//! page outcomes. The surrounding process is expected to hold one lock around
//! the whole "check staleness, maybe refresh, read" sequence, so the decision
//! and the update form a single critical section and concurrent readers can
//! never start duplicate refreshes.

use vstd::prelude::*;
use crate::page::PageResult;
use crate::page::spec_aggregate;
use crate::page::spec_all_ok;
use crate::page::all_pages_ok;
use crate::page::leaderboard_players;
use crate::player::Player;
use crate::player::copy_players;

verus! {

/// How old a snapshot may grow, in seconds, before a read triggers a refresh.
pub const STALENESS_THRESHOLD_SECS: u64 = 300;

/// The cache manager's state: the current snapshot and the time of the last
/// fully successful refresh. `last_updated` is `None` until one refresh has
/// succeeded in full, so a fresh manager is already stale and the first read
/// always triggers a refresh.
pub struct Manager {
    pub players: Vec<Player>,
    pub last_updated: Option<u64>,
}

impl Manager {
    /// The snapshot the manager currently serves.
    pub open spec fn snapshot(self) -> Seq<Player> {
        self.players@
    }

    /// Whether the snapshot is stale at time `now`: never refreshed, or
    /// refreshed more than the threshold ago. A read at a stale moment
    /// refreshes; at any other moment it must leave the fetcher untouched.
    pub open spec fn spec_stale(self, now: u64) -> bool {
        match self.last_updated {
            Option::None => true,
            Option::Some(t) => now > t + STALENESS_THRESHOLD_SECS,
        }
    }

    /// A manager that starts empty and already stale, so the first read
    /// forces an immediate refresh.
    pub fn new() -> (r: Manager)
        ensures
            r.snapshot() == Seq::<Player>::empty(),
            r.last_updated is None,
            forall|now: u64| r.spec_stale(now),
    {
        Manager { players: Vec::new(), last_updated: Option::None }
    }

    /// Whether a read arriving at time `now` must refresh first. Exactly the
    /// staleness test: within the threshold of the last successful refresh
    /// the fetcher is not invoked at all.
    pub fn needs_refresh(&self, now: u64) -> (r: bool)
        ensures
            r == self.spec_stale(now),
    {
        match self.last_updated {
            Option::None => true,
            Option::Some(t) => now >= t && now - t > STALENESS_THRESHOLD_SECS,
        }
    }

    /// Installs the outcome of one refresh cycle, run at time `now`. The
    /// snapshot is always overwritten wholesale with the aggregation of the
    /// given pages — even a partial or empty result — so a reader never sees
    /// records of two cycles mixed. The timestamp advances only when every
    /// page succeeded; after a partial or failed cycle the cache stays stale
    /// and the next read retries immediately.
    pub fn update_data(&mut self, now: u64, pages: &Vec<PageResult>)
        ensures
            final(self).snapshot() == spec_aggregate(pages@),
            spec_all_ok(pages@) ==> final(self).last_updated == Option::Some(now),
            !spec_all_ok(pages@) ==> final(self).last_updated == old(self).last_updated,
    {
        self.players = leaderboard_players(pages);
        if all_pages_ok(pages) {
            self.last_updated = Option::Some(now);
        }
    }

    /// A copy of the current snapshot, exactly as stored: complete and from a
    /// single refresh cycle. Reading never fails and never changes the state.
    pub fn get_data(&self) -> (r: Vec<Player>)
        ensures
            r@ == self.snapshot(),
    {
        copy_players(&self.players)
    }
}

/// A read within the threshold of the last successful refresh never finds the
/// cache stale, so it never invokes the fetcher.
pub proof fn lemma_fresh_within_threshold(m: Manager, t: u64, now: u64)
    requires
        m.last_updated == Option::Some(t),
        now <= t + STALENESS_THRESHOLD_SECS,
    ensures
        !m.spec_stale(now),
{
}

/// Two consecutive reads inside the freshness window are idempotent: neither
/// finds the cache stale — so neither triggers a fetch cycle — and both
/// return the same snapshot, since reading leaves the state untouched.
pub proof fn lemma_idempotent_read(
    m: Manager,
    now1: u64,
    now2: u64,
    r1: Vec<Player>,
    r2: Vec<Player>,
)
    requires
        now1 <= now2,
        !m.spec_stale(now2),
        r1@ == m.snapshot(),
        r2@ == m.snapshot(),
    ensures
        !m.spec_stale(now1),
        r1@ == r2@,
{
}

/// Once one reader has completed a fully successful refresh at time `now`,
/// every read during the following threshold window finds the cache fresh:
/// with the whole read path under one lock, stale concurrent readers produce
/// exactly one refresh cycle, not one each.
pub proof fn lemma_one_refresh_per_window(
    m: Manager,
    pages: Seq<PageResult>,
    now: u64,
    later: u64,
)
    requires
        spec_all_ok(pages),
        m.snapshot() == spec_aggregate(pages),
        m.last_updated == Option::Some(now),
        now <= later <= now + STALENESS_THRESHOLD_SECS,
    ensures
        !m.spec_stale(later),
{
}

} // verus!
