//! The records kept for each family of pools.

use crate::address::Address;
use vstd::prelude::*;

verus! {

/// An unsigned integer of up to 256 bits, as two halves.
#[derive(Clone, Copy, Debug, PartialEq, Eq, Structural)]
pub struct U256 {
    /// The upper 128 bits.
    pub hi: u128,
    /// The lower 128 bits.
    pub lo: u128,
}

impl U256 {
    /// The number that the two halves stand for.
    pub open spec fn value(self) -> nat {
        (self.hi * 0x1_0000_0000_0000_0000_0000_0000_0000_0000 + self.lo) as nat
    }

    /// Whether the number fits in 160 bits.
    pub open spec fn fits_160(self) -> bool {
        self.hi < 0x1_0000_0000
    }

    /// Tells whether the number fits in 160 bits.
    pub fn is_uint160(&self) -> (r: bool)
        ensures
            r == self.fits_160(),
            r == (self.value() < 0x1_0000_0000_0000_0000_0000_0000_0000_0000_0000_0000),
    {
        self.hi < 0x1_0000_0000
    }
}

/// Whether `v` is a signed integer of 24 bits.
pub open spec fn fits_int24(v: int) -> bool {
    -0x80_0000 <= v < 0x80_0000
}

/// Whether `v` is an unsigned integer of 24 bits.
pub open spec fn fits_uint24(v: int) -> bool {
    0 <= v < 0x100_0000
}

/// A constant-product pool: two tokens and their reserves.
#[derive(Clone, Debug, PartialEq, Eq)]
pub struct UniswapV2Pool {
    /// The pair contract.
    pub address: Address,
    /// The first token of the pair.
    pub token0: Address,
    /// The second token of the pair.
    pub token1: Address,
    /// The symbol of the first token.
    pub token0_name: String,
    /// The symbol of the second token.
    pub token1_name: String,
    /// The decimal places of the first token.
    pub token0_decimals: u8,
    /// The decimal places of the second token.
    pub token1_decimals: u8,
    /// The reserve of the first token.
    pub token0_reserves: u128,
    /// The reserve of the second token.
    pub token1_reserves: u128,
}

/// A concentrated-liquidity pool: two tokens, the price and the active tick.
#[derive(Clone, Debug, PartialEq, Eq)]
pub struct UniswapV3Pool {
    /// The pool contract.
    pub address: Address,
    /// The first token of the pool.
    pub token0: Address,
    /// The decimal places of the first token.
    pub token0_decimals: u8,
    /// The second token of the pool.
    pub token1: Address,
    /// The decimal places of the second token.
    pub token1_decimals: u8,
    /// The liquidity in range at the current tick, of 128 bits.
    pub liquidity: u128,
    /// The square root of the price, of 160 bits.
    pub sqrt_price: U256,
    /// The current tick, of 24 bits.
    pub tick: i32,
    /// The spacing between usable ticks, of 24 bits.
    pub tick_spacing: i32,
    /// The fee of the pool, of 24 bits.
    pub fee: u32,
    /// The net liquidity at the current tick, of 128 bits.
    pub liquidity_net: i128,
}

impl UniswapV3Pool {
    /// Every field is within the width that the pool contract gives it.
    pub open spec fn within_widths(&self) -> bool {
        &&& self.sqrt_price.fits_160()
        &&& fits_int24(self.tick as int)
        &&& fits_int24(self.tick_spacing as int)
        &&& fits_uint24(self.fee as int)
    }

    /// Tells whether every field is within its width.
    pub fn check_widths(&self) -> (r: bool)
        ensures
            r == self.within_widths(),
    {
        self.sqrt_price.is_uint160() && -0x80_0000 <= self.tick && self.tick < 0x80_0000
            && -0x80_0000 <= self.tick_spacing && self.tick_spacing < 0x80_0000 && self.fee
            < 0x100_0000
    }
}

/// A pool of two or three tokens that trades along a stable-swap curve.
#[derive(Clone, Debug, PartialEq, Eq)]
pub struct CurvePool {
    /// The pool contract.
    pub address: Address,
    /// All tokens of the pool, in order.
    pub tokens: Vec<Address>,
    /// The first token.
    pub token0: Address,
    /// The second token.
    pub token1: Address,
    /// The third token, if the pool has one.
    pub token2: Option<Address>,
    /// The symbol of the first token.
    pub token0_name: String,
    /// The symbol of the second token.
    pub token1_name: String,
    /// The decimal places of the first token.
    pub token0_decimals: u8,
    /// The decimal places of the second token.
    pub token1_decimals: u8,
    /// The symbol of the third token, if the pool has one.
    pub token2_name: Option<String>,
    /// The decimal places of the third token, if the pool has one.
    pub token2_decimals: Option<u8>,
}

impl Default for CurvePool {
    /// The record with nothing filled in: no tokens, empty names, and every
    /// address zero. It is not consistent, so it counts as not populated.
    fn default() -> (r: CurvePool)
        ensures
            r.address.is_zero(),
            r.tokens@.len() == 0,
            r.token0.is_zero(),
            r.token1.is_zero(),
            r.token2 is None,
            r.token0_name@.len() == 0,
            r.token1_name@.len() == 0,
            r.token0_decimals == 0,
            r.token1_decimals == 0,
            r.token2_name is None,
            r.token2_decimals is None,
            !r.consistent(),
    {
        CurvePool {
            address: Address::default(),
            tokens: Vec::new(),
            token0: Address::default(),
            token1: Address::default(),
            token2: None,
            token0_name: String::new(),
            token1_name: String::new(),
            token0_decimals: 0,
            token1_decimals: 0,
            token2_name: None,
            token2_decimals: None,
        }
    }
}

impl CurvePool {
    /// The token list agrees with the named tokens, and the third token is
    /// either described in full or absent.
    pub open spec fn consistent(&self) -> bool {
        &&& self.token2 is Some <==> self.token2_name is Some
        &&& self.token2 is Some <==> self.token2_decimals is Some
        &&& self.tokens@.len() == (if self.token2 is Some { 3int } else { 2int })
        &&& self.tokens@[0] == self.token0
        &&& self.tokens@[1] == self.token1
        &&& self.token2 matches Some(third) ==> self.tokens@[2] == third
    }

    /// Tells whether the record is consistent.
    pub fn check_consistent(&self) -> (r: bool)
        ensures
            r == self.consistent(),
    {
        match self.token2 {
            Some(third) => {
                self.token2_name.is_some() && self.token2_decimals.is_some() && self.tokens.len()
                    == 3 && self.tokens[0] == self.token0 && self.tokens[1] == self.token1
                    && self.tokens[2] == third
            },
            None => {
                self.token2_name.is_none() && self.token2_decimals.is_none() && self.tokens.len()
                    == 2 && self.tokens[0] == self.token0 && self.tokens[1] == self.token1
            },
        }
    }
}

} // verus!
