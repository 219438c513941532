//! The fetcher for Alien Base pools.

use crate::address::Address;
use crate::chain::Chain;
use crate::errors::PoolSyncError;
use crate::pools::layout::LayoutSpec;
use crate::pools::{PoolFetcher, PoolType};
use vstd::prelude::*;

verus! {

/// The Alien Base factory on Base.
pub const ALIEN_BASE_FACTORY_BASE: [u8; 20] = [
    0x0f, 0xd8, 0x35, 0x57, 0xb2,
    0xbe, 0x93, 0x61, 0x7c, 0x9c,
    0x1c, 0x1b, 0x6f, 0xd5, 0x49,
    0x40, 0x1c, 0x74, 0x55, 0x8c,
];

/// Finds the pools that the Alien Base factory has created.
pub struct AlienBaseFetcher;

impl PoolFetcher for AlienBaseFetcher {
    open spec fn protocol(&self) -> PoolType {
        PoolType::AlienBase
    }

    fn pool_type(&self) -> PoolType {
        PoolType::AlienBase
    }

    fn factory_address(&self, chain: Chain) -> Result<Address, PoolSyncError> {
        match chain {
            Chain::Base => Ok(Address::new(ALIEN_BASE_FACTORY_BASE)),
            _ => Err(PoolSyncError::UnsupportedNetwork),
        }
    }

    fn pair_created_signature(&self) -> &str {
        "PoolCreated(address,address,uint24,int24,address)"
    }

    fn get_pool_repr(&self) -> Option<LayoutSpec> {
        None
    }
}

} // verus!
