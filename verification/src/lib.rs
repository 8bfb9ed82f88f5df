//! Incremental mirroring of an OSV-style vulnerability advisory feed.
//!
//! The feed lives in a remote object store, one JSON advisory per object and
//! one archive of all advisories per ecosystem. This crate decides when a
//! sync is due and of which kind, which objects changed since the last one,
//! and what the fetched bytes are worth as advisory records. It fetches
//! nothing itself: a run hands out the addresses to fetch and takes the
//! responses back (see [`sync::SyncRun`]).

use vstd::prelude::*;
use crate::timestamp::epoch_seconds_now;

pub mod archive;
pub mod delta;
pub mod error;
pub mod fields;
pub mod json;
pub mod listing;
pub mod pipeline;
pub mod record;
pub mod schema;
pub mod sync;
pub mod text;
pub mod timestamp;
pub mod url;

verus! {

/// The least number of seconds between two syncs of one ecosystem: four
/// hours.
pub const MIN_SYNC_INTERVAL: i64 = 14400;

/// The most object fetches that a driver should have under way at once.
pub const MAX_CONCURRENT_FETCHES: usize = 8;

/// The sync state of one ecosystem: which ecosystem it is, and the
/// watermark, the time in seconds since the epoch up to which the remote
/// objects are taken as synchronized. A watermark of zero means that the
/// ecosystem was never synchronized.
#[derive(Debug, Clone, PartialEq, Eq)]
pub struct VulnListing {
    pub ecosystem: String,
    pub last_synced_at: i64,
}

pub ghost struct VulnListingView {
    pub ecosystem: Seq<char>,
    pub last_synced_at: int,
}

impl View for VulnListing {
    type V = VulnListingView;

    open spec fn view(&self) -> VulnListingView {
        VulnListingView { ecosystem: self.ecosystem@, last_synced_at: self.last_synced_at as int }
    }
}

/// What a sync does when it is asked for.
#[derive(Debug, Clone, Copy, PartialEq, Eq, Structural)]
pub enum SyncMode {
    /// Too little time has passed since the last sync: nothing is done.
    NotDue,
    /// The ecosystem was never synchronized: its full archive is fetched.
    Bootstrap,
    /// Only what changed since the watermark is fetched.
    Incremental,
}

/// Whether a sync is due at `now`: more than the minimum interval has
/// passed since the watermark.
pub open spec fn is_due(last_synced_at: int, now: int) -> bool {
    now - last_synced_at > MIN_SYNC_INTERVAL
}

/// The kind of sync that is made at `now` from a watermark.
pub open spec fn mode_at(last_synced_at: int, now: int) -> SyncMode {
    if !is_due(last_synced_at, now) {
        SyncMode::NotDue
    } else if last_synced_at <= 0 {
        SyncMode::Bootstrap
    } else {
        SyncMode::Incremental
    }
}

/// The time at which a check was made, and what it found.
#[derive(Debug, Clone, Copy, PartialEq, Eq, Structural)]
pub struct UpdateCheck {
    pub now: i64,
    pub mode: SyncMode,
}

impl VulnListing {
    /// The state of an ecosystem that was never synchronized.
    pub fn init(package_type: String) -> (state: VulnListing)
        ensures
            state@ == (VulnListingView { ecosystem: package_type@, last_synced_at: 0 }),
    {
        VulnListing { ecosystem: package_type, last_synced_at: 0 }
    }

    /// A copy of the state.
    pub fn duplicate(&self) -> (copy: VulnListing)
        ensures
            copy == *self,
    {
        VulnListing { ecosystem: self.ecosystem.clone(), last_synced_at: self.last_synced_at }
    }

    /// Whether a sync is due at `now`.
    pub fn is_due_at(&self, now: i64) -> (due: bool)
        ensures
            due == is_due(self.last_synced_at as int, now as int),
    {
        (now as i128) - (self.last_synced_at as i128) > (MIN_SYNC_INTERVAL as i128)
    }

    /// The kind of sync to make at `now`.
    pub fn mode_for(&self, now: i64) -> (mode: SyncMode)
        ensures
            mode == mode_at(self.last_synced_at as int, now as int),
    {
        if !self.is_due_at(now) {
            SyncMode::NotDue
        } else if self.last_synced_at <= 0 {
            SyncMode::Bootstrap
        } else {
            SyncMode::Incremental
        }
    }

    /// Reads the clock and says what kind of sync to make now. The result
    /// holds the time that was read, for the run that follows to start from.
    pub fn check_for_updates(&self) -> (check: UpdateCheck)
        ensures
            check.mode == mode_at(self.last_synced_at as int, check.now as int),
    {
        let now = epoch_seconds_now();
        UpdateCheck { now, mode: self.mode_for(now) }
    }
}

/// Branching: a sync that is due is a bootstrap from a watermark of zero
/// and an incremental sync from a watermark above zero.
pub proof fn lemma_due_sync_branches(last_synced_at: int, now: int)
    requires
        is_due(last_synced_at, now),
    ensures
        last_synced_at == 0 ==> mode_at(last_synced_at, now) == SyncMode::Bootstrap,
        last_synced_at > 0 ==> mode_at(last_synced_at, now) == SyncMode::Incremental,
{
}

/// Rate limit: from a watermark that is not below `t0`, nothing is due at
/// any time before `t0` plus the minimum interval.
pub proof fn lemma_not_due_within_interval(last_synced_at: int, t0: int, t1: int)
    requires
        last_synced_at >= t0,
        t1 < t0 + MIN_SYNC_INTERVAL,
    ensures
        mode_at(last_synced_at, t1) == SyncMode::NotDue,
{
}

} // verus!
