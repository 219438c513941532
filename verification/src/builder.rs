//! The configuration of a synchronizer, put together step by step.

use crate::chain::Chain;
use crate::errors::PoolSyncError;
use crate::pool_sync::PoolSync;
use crate::pools::{all_supported, PoolType};
use vstd::prelude::*;

verus! {

/// Collects the protocols, the network and the ceiling on in-flight
/// requests of a synchronizer.
#[derive(Clone, Debug, PartialEq, Eq)]
pub struct PoolSyncBuilder {
    /// The protocols to synchronize, each once.
    pub fetchers: Vec<PoolType>,
    /// The network, once chosen.
    pub chain: Option<Chain>,
    /// The ceiling on in-flight requests, once chosen.
    pub rate_limit: Option<u64>,
}

/// Tells whether `pool_type` is among `fetchers`.
pub fn enabled(fetchers: &Vec<PoolType>, pool_type: PoolType) -> (r: bool)
    ensures
        r == fetchers@.contains(pool_type),
{
    let mut i: usize = 0;
    while i < fetchers.len()
        invariant
            i <= fetchers.len(),
            forall|j: int| 0 <= j < i ==> fetchers@[j] != pool_type,
        decreases fetchers.len() - i,
    {
        if fetchers[i] == pool_type {
            return true;
        }
        i += 1;
    }
    false
}

/// Tells whether every protocol of `fetchers` has a factory on `chain`.
pub fn check_supported(fetchers: &Vec<PoolType>, chain: Chain) -> (r: bool)
    ensures
        r == all_supported(fetchers@, chain),
{
    let mut i: usize = 0;
    while i < fetchers.len()
        invariant
            i <= fetchers.len(),
            forall|j: int| 0 <= j < i ==> (#[trigger] fetchers@[j]).is_supported_on(chain),
        decreases fetchers.len() - i,
    {
        if !fetchers[i].supports(chain) {
            return false;
        }
        i += 1;
    }
    true
}

impl Default for PoolSyncBuilder {
    fn default() -> (r: PoolSyncBuilder)
        ensures
            r.wf(),
            r.fetchers@.len() == 0,
            r.chain is None,
            r.rate_limit is None,
    {
        PoolSyncBuilder { fetchers: Vec::new(), chain: None, rate_limit: None }
    }
}

impl PoolSyncBuilder {
    /// No protocol is listed twice.
    pub open spec fn wf(&self) -> bool {
        self.fetchers@.no_duplicates()
    }

    /// The error that keeps the configuration from being built, if any: the
    /// network is missing, or a protocol has no factory on it, or no
    /// positive ceiling was chosen, in this order.
    pub open spec fn defect(&self) -> Option<PoolSyncError> {
        match self.chain {
            None => Some(PoolSyncError::ChainNotSet),
            Some(chain) => if !all_supported(self.fetchers@, chain) {
                Some(PoolSyncError::UnsupportedNetwork)
            } else if self.rate_limit is None || self.rate_limit == Some(0u64) {
                Some(PoolSyncError::RateLimitNotSet)
            } else {
                None
            },
        }
    }

    /// Adds a protocol to synchronize. Adding one that is listed already
    /// changes nothing.
    pub fn add_pool(self, pool_type: PoolType) -> (r: PoolSyncBuilder)
        requires
            self.wf(),
        ensures
            r.wf(),
            r.chain == self.chain,
            r.rate_limit == self.rate_limit,
            r.fetchers@ == (if self.fetchers@.contains(pool_type) {
                self.fetchers@
            } else {
                self.fetchers@.push(pool_type)
            }),
    {
        let mut builder = self;
        if !enabled(&builder.fetchers, pool_type) {
            builder.fetchers.push(pool_type);
        }
        builder
    }

    /// Chooses the network.
    pub fn chain(self, chain: Chain) -> (r: PoolSyncBuilder)
        ensures
            r.chain == Some(chain),
            r.rate_limit == self.rate_limit,
            r.fetchers@ == self.fetchers@,
    {
        let mut builder = self;
        builder.chain = Some(chain);
        builder
    }

    /// Chooses the ceiling on in-flight requests.
    pub fn rate_limit(self, rate_limit: u64) -> (r: PoolSyncBuilder)
        ensures
            r.rate_limit == Some(rate_limit),
            r.chain == self.chain,
            r.fetchers@ == self.fetchers@,
    {
        let mut builder = self;
        builder.rate_limit = Some(rate_limit);
        builder
    }

    /// Builds the synchronizer, or says what keeps it from being built: a
    /// run is refused here, before any work starts, when a protocol has no
    /// factory on the chosen network.
    pub fn build(self) -> (r: Result<PoolSync, PoolSyncError>)
        requires
            self.wf(),
        ensures
            match r {
                Ok(sync) => {
                    &&& self.defect() is None
                    &&& sync.wf()
                    &&& sync.fetchers@ == self.fetchers@
                    &&& self.chain == Some(sync.chain)
                    &&& self.rate_limit == Some(sync.rate_limit)
                },
                Err(error) => self.defect() == Some(error),
            },
    {
        match self.chain {
            None => Err(PoolSyncError::ChainNotSet),
            Some(chain) => {
                if !check_supported(&self.fetchers, chain) {
                    return Err(PoolSyncError::UnsupportedNetwork);
                }
                match self.rate_limit {
                    Some(rate_limit) if rate_limit > 0 => Ok(
                        PoolSync { fetchers: self.fetchers, chain, rate_limit },
                    ),
                    _ => Err(PoolSyncError::RateLimitNotSet),
                }
            },
        }
    }
}

} // verus!
