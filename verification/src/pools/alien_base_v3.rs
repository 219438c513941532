//! The fetcher for Alien Base V3 pools.

use crate::address::Address;
use crate::chain::Chain;
use crate::errors::PoolSyncError;
use crate::pools::layout::LayoutSpec;
use crate::pools::{PoolFetcher, PoolType};
use vstd::prelude::*;

verus! {

/// The Alien Base V3 factory on Base.
pub const ALIEN_BASE_V3_FACTORY_BASE: [u8; 20] = [
    0xb2, 0x7f, 0x11, 0x05, 0x71,
    0xc9, 0x6b, 0x82, 0x71, 0xd9,
    0x1a, 0xd4, 0x2d, 0x33, 0xa3,
    0x91, 0xa7, 0x5e, 0x60, 0x30,
];

/// Finds the pools that the Alien Base V3 factory has created.
pub struct AlienBaseV3Fetcher;

impl PoolFetcher for AlienBaseV3Fetcher {
    open spec fn protocol(&self) -> PoolType {
        PoolType::AlienBaseV3
    }

    fn pool_type(&self) -> PoolType {
        PoolType::AlienBaseV3
    }

    fn factory_address(&self, chain: Chain) -> Result<Address, PoolSyncError> {
        match chain {
            Chain::Base => Ok(Address::new(ALIEN_BASE_V3_FACTORY_BASE)),
            _ => Err(PoolSyncError::UnsupportedNetwork),
        }
    }

    fn pair_created_signature(&self) -> &str {
        "PoolCreated(address,address,uint24,int24,address)"
    }

    fn get_pool_repr(&self) -> Option<LayoutSpec> {
        Some(
            LayoutSpec::Array(
                Box::new(
                    LayoutSpec::Tuple(
                        vec![
                            LayoutSpec::Address,
                            LayoutSpec::Address,
                            LayoutSpec::Uint(8),
                            LayoutSpec::Address,
                            LayoutSpec::Uint(8),
                            LayoutSpec::Uint(128),
                            LayoutSpec::Uint(160),
                            LayoutSpec::Int(24),
                            LayoutSpec::Int(24),
                            LayoutSpec::Uint(24),
                            LayoutSpec::Int(128),
                        ],
                    ),
                ),
            ),
        )
    }
}

} // verus!
