//! The synchronizer: which protocols to follow, on which network, and how
//! many requests may be in flight.

use crate::builder::PoolSyncBuilder;
use crate::cache::{check_collection, PoolCache};
use crate::chain::Chain;
use crate::errors::PoolSyncError;
use crate::orchestrator::{SyncAction, SyncPhase, SyncRun};
use crate::pools::{all_supported, PoolType};
use vstd::prelude::*;

verus! {

/// Whether `snapshots` holds one valid snapshot per protocol of `fetchers`,
/// in the same order.
pub open spec fn snapshots_match(snapshots: Seq<PoolCache>, fetchers: Seq<PoolType>) -> bool {
    &&& snapshots.len() == fetchers.len()
    &&& forall|i: int|
        0 <= i < snapshots.len() ==> (#[trigger] snapshots[i]).pool_type == fetchers[i]
            && snapshots[i].wf()
}

/// The most items that one group may hold under `rate_limit`.
pub open spec fn ceiling_of(rate_limit: u64) -> usize {
    if rate_limit > usize::MAX {
        usize::MAX
    } else {
        rate_limit as usize
    }
}

/// The main struct for pool synchronization.
#[derive(Clone, Debug, PartialEq, Eq)]
pub struct PoolSync {
    /// The protocols to synchronize, each once.
    pub fetchers: Vec<PoolType>,
    /// The network to synchronize on.
    pub chain: Chain,
    /// The most requests that may be in flight at once.
    pub rate_limit: u64,
}

impl PoolSync {
    /// No protocol is listed twice, each has a factory on the network, and
    /// the ceiling on in-flight requests is positive.
    pub open spec fn wf(&self) -> bool {
        &&& self.fetchers@.no_duplicates()
        &&& all_supported(self.fetchers@, self.chain)
        &&& self.rate_limit > 0
    }

    /// Constructs a new builder to configure the synchronizer.
    pub fn builder() -> (r: PoolSyncBuilder)
        ensures
            r.wf(),
            r.fetchers@.len() == 0,
            r.chain is None,
            r.rate_limit is None,
    {
        PoolSyncBuilder::default()
    }

    /// Begins the synchronization of all added pools from `snapshots`, which
    /// must hold one valid snapshot per protocol, in the order of the
    /// protocols; anything else is refused with `IoError`. The run that is
    /// returned is driven by handing it what each action came to; it begins
    /// by waiting for the chain head, so the first thing to do is to read it.
    pub fn sync_pools(&self, snapshots: Vec<PoolCache>) -> (r: Result<
        (SyncRun, SyncAction),
        PoolSyncError,
    >)
        requires
            self.wf(),
        ensures
            match r {
                Ok((run, action)) => {
                    &&& snapshots_match(snapshots@, self.fetchers@)
                    &&& run.wf()
                    &&& run.phase == SyncPhase::AwaitingHead
                    &&& run.caches@ == snapshots@
                    &&& run.chain == self.chain
                    &&& run.ceiling == ceiling_of(self.rate_limit)
                    &&& run.dropped == 0
                    &&& run.last_completed is None
                    &&& action == SyncAction::ReadHead
                },
                Err(error) => error == PoolSyncError::IoError && !snapshots_match(
                    snapshots@,
                    self.fetchers@,
                ),
            },
    {
        if snapshots.len() != self.fetchers.len() {
            return Err(PoolSyncError::IoError);
        }
        let mut i: usize = 0;
        while i < snapshots.len()
            invariant
                i <= snapshots.len(),
                snapshots.len() == self.fetchers.len(),
                forall|j: int|
                    0 <= j < i ==> (#[trigger] snapshots@[j]).pool_type == self.fetchers@[j]
                        && snapshots@[j].wf(),
            decreases snapshots.len() - i,
        {
            if snapshots[i].pool_type != self.fetchers[i] || !check_collection(
                &snapshots[i].pools,
                snapshots[i].pool_type,
            ) {
                return Err(PoolSyncError::IoError);
            }
            i += 1;
        }
        let ceiling: usize = if self.rate_limit > usize::MAX as u64 {
            usize::MAX
        } else {
            self.rate_limit as usize
        };
        let run = SyncRun {
            chain: self.chain,
            ceiling,
            caches: snapshots,
            phase: SyncPhase::AwaitingHead,
            head: 0,
            cursor: 0,
            requested: Vec::new(),
            fresh: Vec::new(),
            dropped: 0,
            last_completed: None,
        };
        Ok((run, SyncAction::ReadHead))
    }
}

} // verus!
