//! Creation of pools.

use vstd::prelude::*;
use crate::address::Address;
use crate::error::ErrorCode;
use crate::pool_state::{PoolState, OBSERVATION_UPDATE_DURATION};

verus! {

/// The accounts of a pool's creation.
#[derive(Clone, Copy, Debug, PartialEq, Eq)]
pub struct InitializePool {
    /// The identity that creates the pool and pays for its record.
    pub authority: Address,
    /// The record that storage has allocated for the pool.
    pub pool_state: PoolState,
    /// The first asset of the pair.
    pub token_mint_0: Address,
    /// The second asset of the pair.
    pub token_mint_1: Address,
}

/// Whether a pool can be created from these values: the price and the tick
/// spacing are positive and the assets differ.
pub open spec fn valid_pool_parameters(
    token_mint_0: Address,
    token_mint_1: Address,
    initial_sqrt_price: u128,
    tick_spacing: u16,
) -> bool {
    &&& initial_sqrt_price > 0
    &&& tick_spacing > 0
    &&& token_mint_0@ != token_mint_1@
}

/// The pool that is created from these values.
pub open spec fn spec_new_pool(
    authority: Address,
    token_mint_0: Address,
    token_mint_1: Address,
    initial_sqrt_price: u128,
    tick_spacing: u16,
) -> PoolState {
    PoolState {
        authority,
        token_mint_0,
        token_mint_1,
        tick_spacing,
        sqrt_price: initial_sqrt_price,
        observation_index: 0,
        observation_update_duration: OBSERVATION_UPDATE_DURATION,
    }
}

/// Creates the record of a new pool. The price is stored as it was given.
///
/// Fails with `InvalidParameters` exactly when the price or the tick spacing
/// is zero or the two assets are the same.
pub fn create_pool(
    authority: Address,
    token_mint_0: Address,
    token_mint_1: Address,
    initial_sqrt_price: u128,
    tick_spacing: u16,
) -> (result: Result<PoolState, ErrorCode>)
    ensures
        match result {
            Ok(pool) => {
                &&& valid_pool_parameters(token_mint_0, token_mint_1, initial_sqrt_price, tick_spacing)
                &&& pool == spec_new_pool(
                    authority,
                    token_mint_0,
                    token_mint_1,
                    initial_sqrt_price,
                    tick_spacing,
                )
                &&& pool.sqrt_price == initial_sqrt_price
                &&& pool.wf()
            },
            Err(e) => {
                &&& e == ErrorCode::InvalidParameters
                &&& !valid_pool_parameters(token_mint_0, token_mint_1, initial_sqrt_price, tick_spacing)
            },
        },
{
    if initial_sqrt_price == 0 || tick_spacing == 0 || token_mint_0.same_as(&token_mint_1) {
        return Err(ErrorCode::InvalidParameters);
    }
    Ok(
        PoolState {
            authority,
            token_mint_0,
            token_mint_1,
            tick_spacing,
            sqrt_price: initial_sqrt_price,
            observation_index: 0,
            observation_update_duration: OBSERVATION_UPDATE_DURATION,
        },
    )
}

/// Fills the allocated record with a new pool of the two assets, created by
/// the authority among the accounts.
///
/// Fails as `create_pool` does, and then leaves the record as it was.
pub fn initialize_pool(ctx: &mut InitializePool, initial_sqrt_price: u128, tick_spacing: u16) -> (result:
    Result<(), ErrorCode>)
    ensures
        final(ctx).authority == old(ctx).authority,
        final(ctx).token_mint_0 == old(ctx).token_mint_0,
        final(ctx).token_mint_1 == old(ctx).token_mint_1,
        match result {
            Ok(_) => {
                &&& valid_pool_parameters(
                    old(ctx).token_mint_0,
                    old(ctx).token_mint_1,
                    initial_sqrt_price,
                    tick_spacing,
                )
                &&& final(ctx).pool_state == spec_new_pool(
                    old(ctx).authority,
                    old(ctx).token_mint_0,
                    old(ctx).token_mint_1,
                    initial_sqrt_price,
                    tick_spacing,
                )
                &&& final(ctx).pool_state.sqrt_price == initial_sqrt_price
                &&& final(ctx).pool_state.wf()
            },
            Err(e) => {
                &&& e == ErrorCode::InvalidParameters
                &&& !valid_pool_parameters(
                    old(ctx).token_mint_0,
                    old(ctx).token_mint_1,
                    initial_sqrt_price,
                    tick_spacing,
                )
                &&& final(ctx).pool_state == old(ctx).pool_state
            },
        },
{
    match create_pool(ctx.authority, ctx.token_mint_0, ctx.token_mint_1, initial_sqrt_price, tick_spacing) {
        Ok(pool) => {
            ctx.pool_state = pool;
            Ok(())
        },
        Err(e) => Err(e),
    }
}

/// A pool reads back the price it was created with, to the last bit, and is
/// well formed from the start.
pub proof fn lemma_new_pool_keeps_price(
    authority: Address,
    token_mint_0: Address,
    token_mint_1: Address,
    initial_sqrt_price: u128,
    tick_spacing: u16,
)
    requires
        valid_pool_parameters(token_mint_0, token_mint_1, initial_sqrt_price, tick_spacing),
    ensures
        spec_new_pool(authority, token_mint_0, token_mint_1, initial_sqrt_price, tick_spacing).sqrt_price
            == initial_sqrt_price,
        spec_new_pool(authority, token_mint_0, token_mint_1, initial_sqrt_price, tick_spacing).wf(),
{
}

} // verus!
