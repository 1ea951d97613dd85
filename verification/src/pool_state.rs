//! The durable record of one trading pair.

use vstd::prelude::*;
use crate::address::Address;

verus! {

/// Seconds between two updates of the price oracle's observations.
pub const OBSERVATION_UPDATE_DURATION: u64 = 3;

/// Bytes that the fields of a pool record take when stored one after the
/// other: three addresses, the tick spacing, the square-root price and the
/// two observation fields.
pub const POOL_STATE_LEN: usize = 130;

/// Configuration and current price of one trading pair. A pool is created
/// once; after that only a trade changes it, and only its price.
#[derive(Clone, Copy, Debug, PartialEq, Eq)]
pub struct PoolState {
    /// The identity that created the pool.
    pub authority: Address,
    /// The first asset of the pair.
    pub token_mint_0: Address,
    /// The second asset of the pair.
    pub token_mint_1: Address,
    /// Distance between two ticks at which a range may begin or end.
    pub tick_spacing: u16,
    /// Square root of the price of asset 1 in terms of asset 0, with 64
    /// fractional bits.
    pub sqrt_price: u128,
    /// Reserved for the price oracle.
    pub observation_index: u64,
    /// Reserved for the price oracle.
    pub observation_update_duration: u64,
}

impl PoolState {
    /// What holds of a pool for its whole life: ticks are spaced, the price is
    /// positive, and the two assets differ.
    pub open spec fn wf(&self) -> bool {
        &&& self.tick_spacing > 0
        &&& self.sqrt_price > 0
        &&& self.token_mint_0@ != self.token_mint_1@
    }

    /// The pool's current square-root price.
    pub fn sqrt_price(&self) -> (sqrt_price: u128)
        ensures
            sqrt_price == self.sqrt_price,
    {
        self.sqrt_price
    }
}

} // verus!
