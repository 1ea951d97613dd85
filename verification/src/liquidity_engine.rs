//! Provision of liquidity to a range of ticks.
//!
//! A provision is one atomic operation: both assets are deposited or neither
//! is. The pool record keeps no account of ranges, so a provision leaves it
//! unchanged; the range comes back in the result together with the two
//! deposits, for the host to store with the position.

use vstd::prelude::*;
use crate::address::Address;
use crate::custody::TransferRequest;
use crate::error::ErrorCode;
use crate::pool_state::PoolState;

verus! {

/// What a provider asks for: amounts of both assets, for the ticks from
/// `lower_tick` up to, and not including, `upper_tick`.
#[derive(Clone, Copy, Debug, PartialEq, Eq)]
pub struct LiquidityRequest {
    /// How much of asset 0 is deposited.
    pub amount_0: u64,
    /// How much of asset 1 is deposited.
    pub amount_1: u64,
    /// The first tick of the range.
    pub lower_tick: i32,
    /// The tick at which the range ends.
    pub upper_tick: i32,
}

/// The accounts of a provision.
#[derive(Clone, Copy, Debug, PartialEq, Eq)]
pub struct AddLiquidity {
    /// The provider, who authorises both deposits.
    pub user: Address,
    /// The pool that is provided to.
    pub pool_state: PoolState,
    /// The provider's account of asset 0.
    pub user_token_0_account: Address,
    /// The provider's account of asset 1.
    pub user_token_1_account: Address,
    /// The pool's vault of asset 0.
    pub pool_token_0_vault: Address,
    /// The pool's vault of asset 1.
    pub pool_token_1_vault: Address,
}

/// A provision that was accepted: its range, and one deposit for each asset.
#[derive(Clone, Copy, Debug, PartialEq, Eq)]
pub struct LiquidityResult {
    /// The first tick of the range.
    pub lower_tick: i32,
    /// The tick at which the range ends.
    pub upper_tick: i32,
    /// The deposit of asset 0, from the provider's account to the pool's vault.
    pub transfer_0: TransferRequest,
    /// The deposit of asset 1, from the provider's account to the pool's vault.
    pub transfer_1: TransferRequest,
}

impl LiquidityRequest {
    /// Whether the request is refused, and why. The amounts are looked at
    /// before the ticks.
    pub open spec fn spec_validate(&self) -> Result<(), ErrorCode> {
        if self.amount_0 == 0 || self.amount_1 == 0 {
            Err(ErrorCode::InvalidAmount)
        } else if self.lower_tick >= self.upper_tick {
            Err(ErrorCode::InvalidTickRange)
        } else {
            Ok(())
        }
    }

    /// Checks the request: fails with `InvalidAmount` where one of the
    /// amounts is zero, otherwise with `InvalidTickRange` where the lower tick
    /// is not below the upper one.
    pub fn validate(&self) -> (result: Result<(), ErrorCode>)
        ensures
            result == self.spec_validate(),
            result is Ok <==> self.amount_0 > 0 && self.amount_1 > 0 && self.lower_tick < self.upper_tick,
    {
        if self.amount_0 == 0 || self.amount_1 == 0 {
            return Err(ErrorCode::InvalidAmount);
        }
        if self.lower_tick >= self.upper_tick {
            return Err(ErrorCode::InvalidTickRange);
        }
        Ok(())
    }
}

/// What `add_liquidity` returns for the given accounts and request.
pub open spec fn spec_add_liquidity(ctx: AddLiquidity, request: LiquidityRequest) -> Result<
    LiquidityResult,
    ErrorCode,
> {
    match request.spec_validate() {
        Err(e) => Err(e),
        Ok(_) => Ok(
            LiquidityResult {
                lower_tick: request.lower_tick,
                upper_tick: request.upper_tick,
                transfer_0: TransferRequest {
                    from: ctx.user_token_0_account,
                    to: ctx.pool_token_0_vault,
                    authority: ctx.user,
                    amount: request.amount_0,
                },
                transfer_1: TransferRequest {
                    from: ctx.user_token_1_account,
                    to: ctx.pool_token_1_vault,
                    authority: ctx.user,
                    amount: request.amount_1,
                },
            },
        ),
    }
}

/// Provides liquidity to the ticks from `lower_tick` up to `upper_tick`: checks
/// the request and names the two deposits, one of each asset, from the
/// provider's accounts into the pool's vaults on the provider's authority.
///
/// Fails with `InvalidAmount` where one of the amounts is zero, otherwise
/// with `InvalidTickRange` where the lower tick is not below the upper one. A
/// provision that fails asks for no transfer. The pool is unchanged either
/// way.
pub fn add_liquidity(
    ctx: &mut AddLiquidity,
    amount_0: u64,
    amount_1: u64,
    lower_tick: i32,
    upper_tick: i32,
) -> (result: Result<LiquidityResult, ErrorCode>)
    ensures
        result == spec_add_liquidity(
            *old(ctx),
            (LiquidityRequest { amount_0, amount_1, lower_tick, upper_tick }),
        ),
        *final(ctx) == *old(ctx),
        result is Ok <==> amount_0 > 0 && amount_1 > 0 && lower_tick < upper_tick,
        amount_0 == 0 || amount_1 == 0 ==> result == Err::<LiquidityResult, ErrorCode>(
            ErrorCode::InvalidAmount,
        ),
        amount_0 > 0 && amount_1 > 0 && lower_tick >= upper_tick ==> result == Err::<
            LiquidityResult,
            ErrorCode,
        >(ErrorCode::InvalidTickRange),
{
    let request = LiquidityRequest { amount_0, amount_1, lower_tick, upper_tick };
    match request.validate() {
        Err(e) => Err(e),
        Ok(_) => Ok(
            LiquidityResult {
                lower_tick,
                upper_tick,
                transfer_0: TransferRequest {
                    from: ctx.user_token_0_account,
                    to: ctx.pool_token_0_vault,
                    authority: ctx.user,
                    amount: amount_0,
                },
                transfer_1: TransferRequest {
                    from: ctx.user_token_1_account,
                    to: ctx.pool_token_1_vault,
                    authority: ctx.user,
                    amount: amount_1,
                },
            },
        ),
    }
}

} // verus!
