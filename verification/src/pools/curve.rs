//! The fetcher for Curve tri-crypto pools.

use crate::address::Address;
use crate::chain::Chain;
use crate::errors::PoolSyncError;
use crate::pools::layout::LayoutSpec;
use crate::pools::{PoolFetcher, PoolType};
use vstd::prelude::*;

verus! {

/// The Curve tri-crypto factory on Ethereum.
pub const CURVE_TRI_CRYPTO_FACTORY_ETHEREUM: [u8; 20] = [
    0x0c, 0x0e, 0x5f, 0x2f, 0xf0,
    0xff, 0x18, 0xa3, 0xbe, 0x9b,
    0x83, 0x56, 0x35, 0x03, 0x92,
    0x56, 0xdc, 0x4b, 0x49, 0x63,
];

/// The Curve tri-crypto factory on Base.
pub const CURVE_TRI_CRYPTO_FACTORY_BASE: [u8; 20] = [
    0xa5, 0x96, 0x18, 0x98, 0x87,
    0x09, 0x43, 0xc6, 0x80, 0x37,
    0xf6, 0x84, 0x8d, 0x2d, 0x86,
    0x6e, 0xd2, 0x01, 0x6b, 0xcb,
];

/// Finds the pools that the Curve tri-crypto factory has deployed.
pub struct CurveTriCryptoFetcher;

impl PoolFetcher for CurveTriCryptoFetcher {
    open spec fn protocol(&self) -> PoolType {
        PoolType::CurveTriCrypto
    }

    fn pool_type(&self) -> PoolType {
        PoolType::CurveTriCrypto
    }

    fn factory_address(&self, chain: Chain) -> Result<Address, PoolSyncError> {
        match chain {
            Chain::Ethereum => Ok(Address::new(CURVE_TRI_CRYPTO_FACTORY_ETHEREUM)),
            Chain::Base => Ok(Address::new(CURVE_TRI_CRYPTO_FACTORY_BASE)),
        }
    }

    fn pair_created_signature(&self) -> &str {
        "TricryptoPoolDeployed(address,string,string,address,address[3],address,bytes32,uint256,uint256,uint256,uint256,uint256,address)"
    }

    fn get_pool_repr(&self) -> Option<LayoutSpec> {
        None
    }
}

} // verus!
