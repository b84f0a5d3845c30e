//! Reclamation: the periodic removal of expired links.

use vstd::prelude::*;
use crate::clock::unix_now;
use crate::store::{expired_codes, swept, LinkStore, StoreError};

verus! {

/// Seconds between two reclamation passes: one hour.
pub const RECLAIM_INTERVAL_SECONDS: u64 = 3600;

/// What a reclamation pass has to report.
#[derive(Debug, Clone, Copy, PartialEq, Eq, Structural)]
pub enum PassReport {
    /// The pass removed this many links.
    Removed(usize),
    /// The table could not be reached; nothing is known to be removed.
    Failed,
}

/// What follows a reclamation pass.
#[derive(Debug, Clone, Copy, PartialEq, Eq, Structural)]
pub struct NextPass {
    /// What to report of the pass that ended.
    pub report: PassReport,
    /// How long to wait before the next pass.
    pub wait_seconds: u64,
}

/// The schedule: every pass, failed or not, is reported, and the next one
/// follows one interval later. A failed pass is not made up for.
pub open spec fn next_pass(outcome: Result<usize, StoreError>) -> NextPass {
    NextPass {
        report: match outcome {
            Ok(removed) => PassReport::Removed(removed),
            Err(_) => PassReport::Failed,
        },
        wait_seconds: RECLAIM_INTERVAL_SECONDS,
    }
}

/// Decides what follows a pass that ended with `outcome`.
pub fn after_pass(outcome: Result<usize, StoreError>) -> (next: NextPass)
    ensures
        next == next_pass(outcome),
{
    let report = match outcome {
        Ok(removed) => PassReport::Removed(removed),
        Err(_) => PassReport::Failed,
    };
    NextPass { report, wait_seconds: RECLAIM_INTERVAL_SECONDS }
}

/// Runs one reclamation pass over `store` as of the moment of the call, and
/// says how many links it removed.
pub fn reclaim(store: &mut LinkStore) -> (removed: usize)
    ensures
        exists|now: i64|
            {
                &&& final(store)@ == #[trigger] swept(old(store)@, now)
                &&& expired_codes(old(store)@, now).finite()
                &&& removed == expired_codes(old(store)@, now).len()
            },
{
    let now = unix_now();
    let removed = store.delete_expired(now);
    assert(store@ == swept(old(store)@, now));
    removed
}

} // verus!
