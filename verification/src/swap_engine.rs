//! Execution of trades against a pool.
//!
//! A trade is one atomic operation: it is checked, priced and committed, or
//! it fails and leaves the pool as it was. A trade that failed is not tried
//! again here; the caller submits it anew.
//!
//! Custody is asked twice, by the host. The deposit is named by
//! `swap_deposit` from the request alone, so that custody can be asked for it
//! before the trade is priced; the payout is named by `swap`, once the trade
//! is committed. Where custody refuses, or the trade fails after the deposit,
//! the host undoes the whole operation.

use vstd::prelude::*;
use crate::address::Address;
use crate::custody::TransferRequest;
use crate::error::ErrorCode;
use crate::pool_state::PoolState;
use crate::price_math::{
    compute_new_sqrt_price, compute_swap_output, lemma_swap_output_bounds, lemma_swap_output_increases_over_two,
    lemma_swap_output_monotonic, lemma_swap_output_strictly_increasing, spec_new_sqrt_price, spec_swap_output,
    within_price_limit, FEE_RATE_DENOMINATOR, POOL_FEE_RATE,
};

verus! {

/// What a trader asks for.
#[derive(Clone, Copy, Debug, PartialEq, Eq)]
pub struct SwapRequest {
    /// How much the trader supplies.
    pub amount_in: u64,
    /// The least the trader accepts in return.
    pub minimum_amount_out: u64,
    /// The square-root price beyond which the trade must not leave the pool.
    pub sqrt_price_limit: u128,
    /// `true` where asset 0 is supplied, `false` where asset 1 is.
    pub is_base_input: bool,
}

/// What a trade that was committed came to.
#[derive(Clone, Copy, Debug, PartialEq, Eq)]
pub struct SwapResult {
    /// How much is paid out to the trader.
    pub amount_out: u64,
    /// The pool's square-root price after the trade.
    pub sqrt_price: u128,
}

/// The accounts of a trade.
#[derive(Clone, Copy, Debug, PartialEq, Eq)]
pub struct Swap {
    /// The trader, who authorises the transfer into the pool.
    pub user: Address,
    /// The pool that is traded against.
    pub pool_state: PoolState,
    /// The trader's account of the asset supplied.
    pub user_token_account: Address,
    /// The pool's vault of the asset supplied.
    pub pool_token_vault: Address,
    /// The trader's account of the asset paid out.
    pub user_output_token_account: Address,
    /// The pool's vault of the asset paid out.
    pub pool_output_token_vault: Address,
    /// The identity that authorises transfers out of the pool's vaults.
    pub vault_authority: Address,
}

/// A committed trade together with the two transfers that belong to it.
#[derive(Clone, Copy, Debug, PartialEq, Eq)]
pub struct SwapSettlement {
    /// How much is paid out to the trader.
    pub amount_out: u64,
    /// The pool's square-root price after the trade.
    pub sqrt_price: u128,
    /// The amount supplied, from the trader's account to the pool's vault.
    pub deposit: TransferRequest,
    /// The amount paid out, from the pool's vault to the trader's account.
    pub payout: TransferRequest,
}

/// The outcome of a trade against a pool. In this order: an amount of zero is
/// refused; then a limit that the price after the trade would lie beyond;
/// then an output below the trader's minimum.
pub open spec fn spec_execute_swap(pool: PoolState, request: SwapRequest) -> Result<SwapResult, ErrorCode> {
    let amount_out = spec_swap_output(request.amount_in as nat, POOL_FEE_RATE as nat) as u64;
    let new_sqrt_price = spec_new_sqrt_price(
        pool.sqrt_price,
        request.amount_in,
        amount_out,
        request.is_base_input,
    );
    if request.amount_in == 0 || request.minimum_amount_out == 0 {
        Err(ErrorCode::InvalidAmount)
    } else if !within_price_limit(new_sqrt_price, request.sqrt_price_limit, request.is_base_input) {
        Err(ErrorCode::PriceLimitExceeded)
    } else if amount_out < request.minimum_amount_out {
        Err(ErrorCode::InsufficientOutputAmount)
    } else {
        Ok(SwapResult { amount_out, sqrt_price: new_sqrt_price })
    }
}

/// The pool after a trade: with the new price where the trade is committed,
/// as it was where the trade fails.
pub open spec fn spec_pool_after_swap(pool: PoolState, request: SwapRequest) -> PoolState {
    match spec_execute_swap(pool, request) {
        Ok(swapped) => PoolState { sqrt_price: swapped.sqrt_price, ..pool },
        Err(_) => pool,
    }
}

/// The transfer that brings the amount supplied into the pool.
pub open spec fn spec_swap_deposit(ctx: Swap, amount_in: u64) -> TransferRequest {
    TransferRequest {
        from: ctx.user_token_account,
        to: ctx.pool_token_vault,
        authority: ctx.user,
        amount: amount_in,
    }
}

/// The transfer that pays the trader.
pub open spec fn spec_swap_payout(ctx: Swap, amount_out: u64) -> TransferRequest {
    TransferRequest {
        from: ctx.pool_output_token_vault,
        to: ctx.user_output_token_account,
        authority: ctx.vault_authority,
        amount: amount_out,
    }
}

/// Names the transfer that brings the amount supplied into the pool: from
/// the trader's account to the pool's vault, on the trader's authority. It
/// depends on the request alone, not on the pool's price, so custody can be
/// asked for it before the trade is priced.
///
/// Fails with `InvalidAmount` exactly when the amount supplied or the minimum
/// is zero.
pub fn swap_deposit(ctx: &Swap, amount_in: u64, minimum_amount_out: u64) -> (result: Result<
    TransferRequest,
    ErrorCode,
>)
    ensures
        result == (if amount_in == 0 || minimum_amount_out == 0 {
            Err::<TransferRequest, ErrorCode>(ErrorCode::InvalidAmount)
        } else {
            Ok::<TransferRequest, ErrorCode>(spec_swap_deposit(*ctx, amount_in))
        }),
{
    if amount_in == 0 || minimum_amount_out == 0 {
        return Err(ErrorCode::InvalidAmount);
    }
    Ok(
        TransferRequest {
            from: ctx.user_token_account,
            to: ctx.pool_token_vault,
            authority: ctx.user,
            amount: amount_in,
        },
    )
}

/// Whether a price after a trade lies between the price before it and the
/// limit, the limit included, in the direction of the trade: not above the
/// old price and not below the limit where asset 0 is supplied, the other way
/// round where asset 1 is.
pub open spec fn price_between(
    old_sqrt_price: u128,
    new_sqrt_price: u128,
    sqrt_price_limit: u128,
    is_base_input: bool,
) -> bool {
    if is_base_input {
        sqrt_price_limit <= new_sqrt_price <= old_sqrt_price
    } else {
        old_sqrt_price <= new_sqrt_price <= sqrt_price_limit
    }
}

/// Executes a trade against the pool: checks the request, prices it at the
/// pool's fee rate, holds the result against the trader's limit and minimum,
/// and commits the new price.
///
/// Fails with `InvalidAmount` where the amount supplied or the minimum is
/// zero, with `PriceLimitExceeded` where the price after the trade would lie
/// beyond the limit, and with `InsufficientOutputAmount` where less than the
/// minimum would be paid out. A trade that fails leaves the pool unchanged.
pub fn execute_swap(pool: &mut PoolState, request: &SwapRequest) -> (result: Result<SwapResult, ErrorCode>)
    ensures
        result == spec_execute_swap(*old(pool), *request),
        *final(pool) == spec_pool_after_swap(*old(pool), *request),
        request.amount_in == 0 ==> result == Err::<SwapResult, ErrorCode>(ErrorCode::InvalidAmount),
        request.amount_in > 0 && within_price_limit(
            old(pool).sqrt_price,
            request.sqrt_price_limit,
            request.is_base_input,
        ) && spec_swap_output(request.amount_in as nat, POOL_FEE_RATE as nat)
            < request.minimum_amount_out ==> result == Err::<SwapResult, ErrorCode>(
            ErrorCode::InsufficientOutputAmount,
        ),
        result is Err ==> *final(pool) == *old(pool),
        old(pool).wf() ==> final(pool).wf(),
        match result {
            Ok(swapped) => {
                &&& swapped.amount_out == spec_swap_output(
                    request.amount_in as nat,
                    POOL_FEE_RATE as nat,
                )
                &&& swapped.amount_out >= request.minimum_amount_out
                &&& swapped.amount_out > 0
                &&& swapped.sqrt_price == final(pool).sqrt_price
                &&& price_between(
                    old(pool).sqrt_price,
                    swapped.sqrt_price,
                    request.sqrt_price_limit,
                    request.is_base_input,
                )
            },
            Err(e) => {
                e == ErrorCode::InvalidAmount || e == ErrorCode::PriceLimitExceeded || e
                    == ErrorCode::InsufficientOutputAmount
            },
        },
{
    if request.amount_in == 0 || request.minimum_amount_out == 0 {
        return Err(ErrorCode::InvalidAmount);
    }
    let amount_out: u64 = match compute_swap_output(
        request.amount_in,
        pool.sqrt_price,
        request.sqrt_price_limit,
        request.is_base_input,
        POOL_FEE_RATE,
    ) {
        Ok(amount) => amount,
        Err(e) => {
            return Err(e);
        },
    };
    if amount_out < request.minimum_amount_out {
        return Err(ErrorCode::InsufficientOutputAmount);
    }
    let new_sqrt_price: u128 = match compute_new_sqrt_price(
        pool.sqrt_price,
        request.amount_in,
        amount_out,
        request.is_base_input,
    ) {
        Ok(price) => price,
        Err(e) => {
            return Err(e);
        },
    };
    pool.sqrt_price = new_sqrt_price;
    Ok(SwapResult { amount_out, sqrt_price: new_sqrt_price })
}

/// What `swap` returns for the given accounts and request.
pub open spec fn spec_swap(ctx: Swap, request: SwapRequest) -> Result<SwapSettlement, ErrorCode> {
    match spec_execute_swap(ctx.pool_state, request) {
        Ok(swapped) => Ok(
            SwapSettlement {
                amount_out: swapped.amount_out,
                sqrt_price: swapped.sqrt_price,
                deposit: spec_swap_deposit(ctx, request.amount_in),
                payout: spec_swap_payout(ctx, swapped.amount_out),
            },
        ),
        Err(e) => Err(e),
    }
}

/// Trades against the pool among the accounts, as `execute_swap` does, and
/// names the two transfers of a committed trade: the amount supplied goes
/// from the trader's account into the pool's vault on the trader's authority,
/// and the amount paid out goes from the pool's other vault to the trader.
/// The first is the transfer that `swap_deposit` names for the same request,
/// repeated for the record; a host that has asked custody for it already
/// asks only for the payout.
///
/// A trade that fails names no transfer and changes nothing.
pub fn swap(
    ctx: &mut Swap,
    amount_in: u64,
    minimum_amount_out: u64,
    sqrt_price_limit: u128,
    is_base_input: bool,
) -> (result: Result<SwapSettlement, ErrorCode>)
    ensures
        result == spec_swap(
            *old(ctx),
            (SwapRequest { amount_in, minimum_amount_out, sqrt_price_limit, is_base_input }),
        ),
        *final(ctx) == (Swap {
            pool_state: spec_pool_after_swap(
                old(ctx).pool_state,
                (SwapRequest { amount_in, minimum_amount_out, sqrt_price_limit, is_base_input }),
            ),
            ..*old(ctx)
        }),
        amount_in == 0 ==> result == Err::<SwapSettlement, ErrorCode>(ErrorCode::InvalidAmount),
        result is Err ==> *final(ctx) == *old(ctx),
        result is Ok ==> result->Ok_0.deposit.amount == amount_in && result->Ok_0.payout.amount
            == result->Ok_0.amount_out && result->Ok_0.amount_out >= minimum_amount_out,
{
    let request = SwapRequest { amount_in, minimum_amount_out, sqrt_price_limit, is_base_input };
    match execute_swap(&mut ctx.pool_state, &request) {
        Ok(swapped) => Ok(
            SwapSettlement {
                amount_out: swapped.amount_out,
                sqrt_price: swapped.sqrt_price,
                deposit: TransferRequest {
                    from: ctx.user_token_account,
                    to: ctx.pool_token_vault,
                    authority: ctx.user,
                    amount: amount_in,
                },
                payout: TransferRequest {
                    from: ctx.pool_output_token_vault,
                    to: ctx.user_output_token_account,
                    authority: ctx.vault_authority,
                    amount: swapped.amount_out,
                },
            },
        ),
        Err(e) => Err(e),
    }
}

/// A trade that failed fails again: on the pool as the failed trade left it,
/// which is the pool as it was, the same request gives the same error and
/// again leaves the pool unchanged.
pub proof fn lemma_failed_swap_repeats(pool: PoolState, request: SwapRequest)
    requires
        spec_execute_swap(pool, request) is Err,
    ensures
        spec_pool_after_swap(pool, request) == pool,
        spec_execute_swap(spec_pool_after_swap(pool, request), request) == spec_execute_swap(pool, request),
        spec_pool_after_swap(spec_pool_after_swap(pool, request), request) == pool,
{
}

/// A trade changes nothing of a pool but its price, and a price only within
/// what the trader allowed: the price after a committed trade lies between
/// the price before it and the limit, in the direction of the trade.
pub proof fn lemma_swap_changes_price_only(pool: PoolState, request: SwapRequest)
    ensures
        spec_pool_after_swap(pool, request) == (PoolState {
            sqrt_price: spec_pool_after_swap(pool, request).sqrt_price,
            ..pool
        }),
        spec_execute_swap(pool, request) is Ok ==> price_between(
            pool.sqrt_price,
            spec_pool_after_swap(pool, request).sqrt_price,
            request.sqrt_price_limit,
            request.is_base_input,
        ),
        pool.wf() ==> spec_pool_after_swap(pool, request).wf(),
{
}

/// Of two trades that are committed against the same pool in the same
/// direction, the one that supplies more is not paid out less.
pub proof fn lemma_larger_swap_pays_no_less(pool: PoolState, smaller: SwapRequest, larger: SwapRequest)
    requires
        smaller.is_base_input == larger.is_base_input,
        smaller.amount_in <= larger.amount_in,
        spec_execute_swap(pool, smaller) is Ok,
        spec_execute_swap(pool, larger) is Ok,
    ensures
        spec_execute_swap(pool, smaller)->Ok_0.amount_out <= spec_execute_swap(pool, larger)->Ok_0.amount_out,
{
    lemma_swap_output_bounds(smaller.amount_in as nat, POOL_FEE_RATE as nat);
    lemma_swap_output_bounds(larger.amount_in as nat, POOL_FEE_RATE as nat);
    lemma_swap_output_monotonic(smaller.amount_in as nat, larger.amount_in as nat, POOL_FEE_RATE as nat);
}

/// Of two trades that are committed against the same pool in the same
/// direction, the one that supplies more is paid out more exactly when what
/// the smaller amount left over in the rounding, together with the fee-free
/// share of the difference, makes up a whole unit.
pub proof fn lemma_larger_swap_pays_more(pool: PoolState, smaller: SwapRequest, larger: SwapRequest)
    requires
        smaller.is_base_input == larger.is_base_input,
        smaller.amount_in <= larger.amount_in,
        spec_execute_swap(pool, smaller) is Ok,
        spec_execute_swap(pool, larger) is Ok,
    ensures
        spec_execute_swap(pool, smaller)->Ok_0.amount_out < spec_execute_swap(pool, larger)->Ok_0.amount_out
            <==> (smaller.amount_in * (FEE_RATE_DENOMINATOR - POOL_FEE_RATE)) % (FEE_RATE_DENOMINATOR as int)
            + (larger.amount_in - smaller.amount_in) * (FEE_RATE_DENOMINATOR - POOL_FEE_RATE)
            >= FEE_RATE_DENOMINATOR,
{
    lemma_swap_output_bounds(smaller.amount_in as nat, POOL_FEE_RATE as nat);
    lemma_swap_output_bounds(larger.amount_in as nat, POOL_FEE_RATE as nat);
    lemma_swap_output_strictly_increasing(
        smaller.amount_in as nat,
        larger.amount_in as nat,
        POOL_FEE_RATE as nat,
    );
}

/// Of two trades that are committed against the same pool in the same
/// direction, the one that supplies more by two or more is paid out more.
pub proof fn lemma_swap_larger_by_two_pays_more(pool: PoolState, smaller: SwapRequest, larger: SwapRequest)
    requires
        smaller.is_base_input == larger.is_base_input,
        smaller.amount_in + 2 <= larger.amount_in,
        spec_execute_swap(pool, smaller) is Ok,
        spec_execute_swap(pool, larger) is Ok,
    ensures
        spec_execute_swap(pool, smaller)->Ok_0.amount_out < spec_execute_swap(pool, larger)->Ok_0.amount_out,
{
    lemma_swap_output_bounds(smaller.amount_in as nat, POOL_FEE_RATE as nat);
    lemma_swap_output_bounds(larger.amount_in as nat, POOL_FEE_RATE as nat);
    lemma_swap_output_increases_over_two(
        smaller.amount_in as nat,
        larger.amount_in as nat,
        POOL_FEE_RATE as nat,
    );
}

/// The deposit in a committed trade is the one that `swap_deposit` names for
/// the same accounts and request, and a request for which no deposit is named
/// is never committed.
pub proof fn lemma_settlement_repeats_deposit(ctx: Swap, request: SwapRequest)
    ensures
        spec_swap(ctx, request) is Ok ==> request.amount_in > 0 && request.minimum_amount_out > 0
            && spec_swap(ctx, request)->Ok_0.deposit == spec_swap_deposit(ctx, request.amount_in),
        request.amount_in == 0 || request.minimum_amount_out == 0 ==> spec_swap(ctx, request) == Err::<
            SwapSettlement,
            ErrorCode,
        >(ErrorCode::InvalidAmount),
{
}

} // verus!
