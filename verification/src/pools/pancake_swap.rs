//! The fetcher for PancakeSwap V2 pools.

use crate::address::Address;
use crate::chain::Chain;
use crate::errors::PoolSyncError;
use crate::pools::layout::LayoutSpec;
use crate::pools::{PoolFetcher, PoolType};
use vstd::prelude::*;

verus! {

/// The PancakeSwap V2 factory on Ethereum.
pub const PANCAKE_SWAP_V2_FACTORY_ETHEREUM: [u8; 20] = [
    0x10, 0x97, 0x05, 0x3f, 0xd2,
    0xea, 0x71, 0x1d, 0xad, 0x45,
    0xca, 0xcc, 0xc4, 0x5e, 0xff,
    0x75, 0x48, 0xfc, 0xb3, 0x62,
];

/// The PancakeSwap V2 factory on Base.
pub const PANCAKE_SWAP_V2_FACTORY_BASE: [u8; 20] = [
    0x02, 0xa8, 0x4c, 0x1b, 0x3b,
    0xbd, 0x74, 0x01, 0xa5, 0xf7,
    0xfa, 0x98, 0xa3, 0x84, 0xeb,
    0xc7, 0x0b, 0xb5, 0x74, 0x9e,
];

/// Finds the pairs that the PancakeSwap V2 factory has created.
pub struct PancakeSwapV2Fetcher;

impl PoolFetcher for PancakeSwapV2Fetcher {
    open spec fn protocol(&self) -> PoolType {
        PoolType::PancakeSwapV2
    }

    fn pool_type(&self) -> PoolType {
        PoolType::PancakeSwapV2
    }

    fn factory_address(&self, chain: Chain) -> Result<Address, PoolSyncError> {
        match chain {
            Chain::Ethereum => Ok(Address::new(PANCAKE_SWAP_V2_FACTORY_ETHEREUM)),
            Chain::Base => Ok(Address::new(PANCAKE_SWAP_V2_FACTORY_BASE)),
        }
    }

    fn pair_created_signature(&self) -> &str {
        "PairCreated(address,address,address,uint256)"
    }

    fn get_pool_repr(&self) -> Option<LayoutSpec> {
        None
    }
}

} // verus!
