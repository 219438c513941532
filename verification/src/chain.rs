//! The networks on which pools can be synchronized.

use vstd::prelude::*;

verus! {

/// A supported blockchain network.
#[derive(Clone, Copy, Debug, PartialEq, Eq, Structural, Hash)]
pub enum Chain {
    /// Ethereum mainnet.
    Ethereum,
    /// Base.
    Base,
}

} // verus!
