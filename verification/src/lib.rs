//! Incremental synchronization of liquidity-pool metadata across
//! decentralized-exchange protocols.
//!
//! The crate holds the decision logic of a pool synchronizer: the registry of
//! supported protocols, the discovery of new pool addresses from decoded
//! factory logs, the all-or-nothing assembly of pool records, the per-protocol
//! cache with its watermark, and the state machine that drives a run. Every
//! exchange with a node or with the disk is left to the caller, which hands
//! the outcome back as plain values.

pub mod address;
pub mod batch;
pub mod builder;
pub mod cache;
pub mod chain;
pub mod discovery;
pub mod errors;
pub mod orchestrator;
pub mod pool_sync;
pub mod pools;
pub mod population;

pub use crate::address::Address;
pub use crate::builder::PoolSyncBuilder;
pub use crate::cache::PoolCache;
pub use crate::chain::Chain;
pub use crate::errors::PoolSyncError;
pub use crate::orchestrator::{SyncAction, SyncEvent, SyncPhase, SyncRun, SyncedRange};
pub use crate::pool_sync::PoolSync;
pub use crate::pools::alien_base::AlienBaseFetcher;
pub use crate::pools::alien_base_v3::AlienBaseV3Fetcher;
pub use crate::pools::curve::CurveTriCryptoFetcher;
pub use crate::pools::pancake_swap::PancakeSwapV2Fetcher;
pub use crate::pools::pool_structures::CurvePool;
pub use crate::pools::{Pool, PoolFetcher, PoolType};
