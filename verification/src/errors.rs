//! The ways in which configuration or a run can fail.

use vstd::prelude::*;

verus! {

/// An error raised while configuring or running a synchronization.
#[derive(Clone, Copy, Debug, PartialEq, Eq, Structural, Hash)]
pub enum PoolSyncError {
    /// No network was chosen before the configuration was built.
    ChainNotSet,
    /// No positive ceiling on in-flight requests was chosen.
    RateLimitNotSet,
    /// A protocol has no factory on the requested network.
    UnsupportedNetwork,
    /// A log or a call result does not have the expected shape.
    DecodeError,
    /// A call to a node failed or timed out.
    TransportError,
    /// Reading or writing a cache snapshot failed.
    IoError,
}

impl PoolSyncError {
    /// Whether the failure concerns a single item and is dropped where it occurs.
    pub open spec fn is_local(self) -> bool {
        self == PoolSyncError::DecodeError
    }

    /// Tells whether the failure concerns a single item only.
    pub fn local(&self) -> (r: bool)
        ensures
            r == self.is_local(),
    {
        matches!(self, PoolSyncError::DecodeError)
    }
}

} // verus!
