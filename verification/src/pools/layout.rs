//! Descriptions of the values that a batched read returns.

use vstd::prelude::*;

verus! {

/// The shape of a value read from a contract.
#[derive(Debug, PartialEq, Eq)]
pub enum LayoutSpec {
    /// A contract address.
    Address,
    /// An unsigned integer of the given number of bits.
    Uint(usize),
    /// A signed integer of the given number of bits.
    Int(usize),
    /// A fixed group of values, one of each listed shape.
    Tuple(Vec<LayoutSpec>),
    /// Any number of values of one shape.
    Array(Box<LayoutSpec>),
}

impl LayoutSpec {
    /// The value is any number of records, each made of `fields` in order.
    pub open spec fn is_records_of(&self, fields: Seq<LayoutSpec>) -> bool {
        &&& *self matches LayoutSpec::Array(record)
        &&& *record matches LayoutSpec::Tuple(listed)
        &&& listed@ == fields
    }
}

/// The fields that a batched read returns for one concentrated-liquidity
/// pool: the pool, both tokens with their decimals, the liquidity, the
/// square root of the price, the tick and its spacing, the fee, and the net
/// liquidity at the tick.
pub open spec fn concentrated_liquidity_fields() -> Seq<LayoutSpec> {
    seq![
        LayoutSpec::Address,
        LayoutSpec::Address,
        LayoutSpec::Uint(8),
        LayoutSpec::Address,
        LayoutSpec::Uint(8),
        LayoutSpec::Uint(128),
        LayoutSpec::Uint(160),
        LayoutSpec::Int(24),
        LayoutSpec::Int(24),
        LayoutSpec::Uint(24),
        LayoutSpec::Int(128),
    ]
}

} // verus!
