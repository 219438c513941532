//! The supported protocols, their pool records and their fetchers.

pub mod alien_base;
pub mod alien_base_v3;
pub mod curve;
pub mod layout;
pub mod pancake_swap;
pub mod pool_structures;

use crate::address::Address;
use crate::chain::Chain;
use crate::errors::PoolSyncError;
use crate::pools::alien_base::{AlienBaseFetcher, ALIEN_BASE_FACTORY_BASE};
use crate::pools::alien_base_v3::{AlienBaseV3Fetcher, ALIEN_BASE_V3_FACTORY_BASE};
use crate::pools::curve::{
    CurveTriCryptoFetcher, CURVE_TRI_CRYPTO_FACTORY_BASE, CURVE_TRI_CRYPTO_FACTORY_ETHEREUM,
};
use crate::pools::layout::{concentrated_liquidity_fields, LayoutSpec};
use crate::pools::pancake_swap::{
    PancakeSwapV2Fetcher, PANCAKE_SWAP_V2_FACTORY_BASE, PANCAKE_SWAP_V2_FACTORY_ETHEREUM,
};
use crate::pools::pool_structures::{CurvePool, UniswapV2Pool, UniswapV3Pool};
use vstd::prelude::*;

verus! {

/// Enumerates the supported pool protocols.
#[derive(Clone, Copy, Debug, PartialEq, Eq, Structural, Hash)]
pub enum PoolType {
    /// PancakeSwap V2, a constant-product exchange.
    PancakeSwapV2,
    /// Alien Base, a concentrated-liquidity exchange.
    AlienBase,
    /// Alien Base V3, a concentrated-liquidity exchange.
    AlienBaseV3,
    /// Curve pools of the tri-crypto factory.
    CurveTriCrypto,
}

/// The factory of each protocol on each network, where it has one.
pub open spec fn factory_of(pool_type: PoolType, chain: Chain) -> Result<Address, PoolSyncError> {
    match (pool_type, chain) {
        (PoolType::PancakeSwapV2, Chain::Ethereum) => Ok(
            Address { bytes: PANCAKE_SWAP_V2_FACTORY_ETHEREUM },
        ),
        (PoolType::PancakeSwapV2, Chain::Base) => Ok(
            Address { bytes: PANCAKE_SWAP_V2_FACTORY_BASE },
        ),
        (PoolType::AlienBase, Chain::Base) => Ok(Address { bytes: ALIEN_BASE_FACTORY_BASE }),
        (PoolType::AlienBaseV3, Chain::Base) => Ok(Address { bytes: ALIEN_BASE_V3_FACTORY_BASE }),
        (PoolType::CurveTriCrypto, Chain::Ethereum) => Ok(
            Address { bytes: CURVE_TRI_CRYPTO_FACTORY_ETHEREUM },
        ),
        (PoolType::CurveTriCrypto, Chain::Base) => Ok(
            Address { bytes: CURVE_TRI_CRYPTO_FACTORY_BASE },
        ),
        (PoolType::AlienBase, Chain::Ethereum) => Err(PoolSyncError::UnsupportedNetwork),
        (PoolType::AlienBaseV3, Chain::Ethereum) => Err(PoolSyncError::UnsupportedNetwork),
    }
}

/// The signature of the event by which each protocol's factory announces a
/// new pool.
pub open spec fn signature_of(pool_type: PoolType) -> Seq<char> {
    match pool_type {
        PoolType::PancakeSwapV2 => "PairCreated(address,address,address,uint256)"@,
        PoolType::AlienBase => "PoolCreated(address,address,uint24,int24,address)"@,
        PoolType::AlienBaseV3 => "PoolCreated(address,address,uint24,int24,address)"@,
        PoolType::CurveTriCrypto =>
            "TricryptoPoolDeployed(address,string,string,address,address[3],address,bytes32,uint256,uint256,uint256,uint256,uint256,address)"@,
    }
}

/// The name of each protocol.
pub open spec fn name_of(pool_type: PoolType) -> Seq<char> {
    match pool_type {
        PoolType::PancakeSwapV2 => "PancakeSwapV2"@,
        PoolType::AlienBase => "AlienBase"@,
        PoolType::AlienBaseV3 => "AlienBaseV3"@,
        PoolType::CurveTriCrypto => "CurveTriCrypto"@,
    }
}

/// Whether the state of a protocol's pools can be read in batches, each
/// answer being an array of records.
pub open spec fn reads_in_batches(pool_type: PoolType) -> bool {
    pool_type == PoolType::AlienBaseV3
}

/// Whether every protocol of `fetchers` has a factory on `chain`.
pub open spec fn all_supported(fetchers: Seq<PoolType>, chain: Chain) -> bool {
    forall|i: int| 0 <= i < fetchers.len() ==> (#[trigger] fetchers[i]).is_supported_on(chain)
}

/// What a fetcher says about its protocol: where the factory stands, which
/// event announces a pool, and how a batched read of pool state is laid out.
pub trait PoolFetcher {
    /// The protocol that the fetcher serves.
    spec fn protocol(&self) -> PoolType;

    /// Returns the protocol that the fetcher serves.
    fn pool_type(&self) -> (r: PoolType)
        ensures
            r == self.protocol(),
    ;

    /// Returns the factory on `chain`, or `UnsupportedNetwork` where the
    /// protocol has none.
    fn factory_address(&self, chain: Chain) -> (r: Result<Address, PoolSyncError>)
        ensures
            r == factory_of(self.protocol(), chain),
    ;

    /// Returns the signature of the event that announces a new pool.
    fn pair_created_signature(&self) -> (r: &str)
        ensures
            r@ == signature_of(self.protocol()),
    ;

    /// Returns the layout of a batched read of pool state, where the protocol
    /// offers one.
    fn get_pool_repr(&self) -> (r: Option<LayoutSpec>)
        ensures
            r is Some <==> reads_in_batches(self.protocol()),
            r matches Some(layout) ==> layout.is_records_of(concentrated_liquidity_fields()),
    ;
}

impl PoolType {
    /// Whether the protocol has a factory on `chain`.
    pub open spec fn is_supported_on(self, chain: Chain) -> bool {
        factory_of(self, chain) is Ok
    }

    /// Returns the factory of the protocol on `chain`, or
    /// `UnsupportedNetwork` where it has none.
    pub fn factory_address(&self, chain: Chain) -> (r: Result<Address, PoolSyncError>)
        ensures
            r == factory_of(*self, chain),
    {
        match self {
            PoolType::PancakeSwapV2 => PancakeSwapV2Fetcher.factory_address(chain),
            PoolType::AlienBase => AlienBaseFetcher.factory_address(chain),
            PoolType::AlienBaseV3 => AlienBaseV3Fetcher.factory_address(chain),
            PoolType::CurveTriCrypto => CurveTriCryptoFetcher.factory_address(chain),
        }
    }

    /// Returns the signature of the event by which the protocol's factory
    /// announces a new pool.
    pub fn pair_created_signature(&self) -> (r: &'static str)
        ensures
            r@ == signature_of(*self),
    {
        match self {
            PoolType::PancakeSwapV2 => PoolFetcher::pair_created_signature(&PancakeSwapV2Fetcher),
            PoolType::AlienBase => PoolFetcher::pair_created_signature(&AlienBaseFetcher),
            PoolType::AlienBaseV3 => PoolFetcher::pair_created_signature(&AlienBaseV3Fetcher),
            PoolType::CurveTriCrypto => PoolFetcher::pair_created_signature(
                &CurveTriCryptoFetcher,
            ),
        }
    }

    /// Returns the layout of a batched read of the protocol's pool state,
    /// where the protocol offers one.
    pub fn get_pool_repr(&self) -> (r: Option<LayoutSpec>)
        ensures
            r is Some <==> reads_in_batches(*self),
            r matches Some(layout) ==> layout.is_records_of(concentrated_liquidity_fields()),
    {
        match self {
            PoolType::PancakeSwapV2 => PancakeSwapV2Fetcher.get_pool_repr(),
            PoolType::AlienBase => AlienBaseFetcher.get_pool_repr(),
            PoolType::AlienBaseV3 => AlienBaseV3Fetcher.get_pool_repr(),
            PoolType::CurveTriCrypto => CurveTriCryptoFetcher.get_pool_repr(),
        }
    }

    /// Returns the name of the protocol, written as its variant is.
    pub fn to_string(&self) -> (r: String)
        ensures
            r@ == name_of(*self),
    {
        match self {
            PoolType::PancakeSwapV2 => "PancakeSwapV2".to_owned(),
            PoolType::AlienBase => "AlienBase".to_owned(),
            PoolType::AlienBaseV3 => "AlienBaseV3".to_owned(),
            PoolType::CurveTriCrypto => "CurveTriCrypto".to_owned(),
        }
    }

    /// Tells whether the protocol has a factory on `chain`.
    pub fn supports(&self, chain: Chain) -> (r: bool)
        ensures
            r == self.is_supported_on(chain),
    {
        self.factory_address(chain).is_ok()
    }
}

/// A populated pool of any supported protocol.
#[derive(Clone, Debug, PartialEq, Eq)]
pub enum Pool {
    /// A PancakeSwap V2 pool.
    PancakeSwapV2(UniswapV2Pool),
    /// An Alien Base pool.
    AlienBase(UniswapV3Pool),
    /// An Alien Base V3 pool.
    AlienBaseV3(UniswapV3Pool),
    /// A Curve tri-crypto pool.
    CurveTriCrypto(CurvePool),
}

impl Pool {
    /// The address of the pool contract.
    pub open spec fn spec_address(&self) -> Address {
        match self {
            Pool::PancakeSwapV2(p) => p.address,
            Pool::AlienBase(p) => p.address,
            Pool::AlienBaseV3(p) => p.address,
            Pool::CurveTriCrypto(p) => p.address,
        }
    }

    /// The protocol that the pool belongs to.
    pub open spec fn spec_pool_type(&self) -> PoolType {
        match self {
            Pool::PancakeSwapV2(_) => PoolType::PancakeSwapV2,
            Pool::AlienBase(_) => PoolType::AlienBase,
            Pool::AlienBaseV3(_) => PoolType::AlienBaseV3,
            Pool::CurveTriCrypto(_) => PoolType::CurveTriCrypto,
        }
    }

    /// The record is populated in full: nothing in it is out of range or
    /// left half-described.
    pub open spec fn complete(&self) -> bool {
        match self {
            Pool::PancakeSwapV2(_) => true,
            Pool::AlienBase(p) => p.within_widths(),
            Pool::AlienBaseV3(p) => p.within_widths(),
            Pool::CurveTriCrypto(p) => p.consistent(),
        }
    }

    /// Returns the address of the pool contract.
    #[verifier::when_used_as_spec(spec_address)]
    pub fn address(&self) -> (r: Address)
        ensures
            r == self.spec_address(),
    {
        match self {
            Pool::PancakeSwapV2(p) => p.address,
            Pool::AlienBase(p) => p.address,
            Pool::AlienBaseV3(p) => p.address,
            Pool::CurveTriCrypto(p) => p.address,
        }
    }

    /// Returns the protocol that the pool belongs to.
    #[verifier::when_used_as_spec(spec_pool_type)]
    pub fn pool_type(&self) -> (r: PoolType)
        ensures
            r == self.spec_pool_type(),
    {
        match self {
            Pool::PancakeSwapV2(_) => PoolType::PancakeSwapV2,
            Pool::AlienBase(_) => PoolType::AlienBase,
            Pool::AlienBaseV3(_) => PoolType::AlienBaseV3,
            Pool::CurveTriCrypto(_) => PoolType::CurveTriCrypto,
        }
    }

    /// Tells whether the record is populated in full.
    pub fn is_complete(&self) -> (r: bool)
        ensures
            r == self.complete(),
    {
        match self {
            Pool::PancakeSwapV2(_) => true,
            Pool::AlienBase(p) => p.check_widths(),
            Pool::AlienBaseV3(p) => p.check_widths(),
            Pool::CurveTriCrypto(p) => p.check_consistent(),
        }
    }
}

/// Whether some pool of `pools` stands at `address`.
pub open spec fn holds_address(pools: Seq<Pool>, address: Address) -> bool {
    exists|i: int| 0 <= i < pools.len() && (#[trigger] pools[i]).address() == address
}

/// Whether no two pools of `pools` stand at one address.
pub open spec fn distinct_addresses(pools: Seq<Pool>) -> bool {
    forall|i: int, j: int|
        0 <= i < j < pools.len() ==>
            (#[trigger] pools[i]).address() != (#[trigger] pools[j]).address()
}

/// Whether a record may enter the collection of `pool_type`: it belongs to
/// that protocol and is populated in full.
pub open spec fn admissible(pool: Pool, pool_type: PoolType) -> bool {
    pool.pool_type() == pool_type && pool.complete()
}

/// Tells whether some pool of `pools` stands at `address`.
pub fn find_address(pools: &Vec<Pool>, address: Address) -> (r: bool)
    ensures
        r == holds_address(pools@, address),
{
    let mut i: usize = 0;
    while i < pools.len()
        invariant
            i <= pools.len(),
            forall|j: int| 0 <= j < i ==> (#[trigger] pools@[j]).address() != address,
        decreases pools.len() - i,
    {
        if pools[i].address() == address {
            return true;
        }
        i += 1;
    }
    false
}

} // verus!
