//! Fixed-point price arithmetic: stateless functions on square-root prices
//! and on traded amounts.
//!
//! A square-root price is an unsigned 128-bit number with 64 fractional bits,
//! so `Q64` stands for 1.0. Amounts are unsigned 64-bit integers; whatever is
//! computed from them on the way is computed in 128 bits.
//!
//! The pool record holds neither reserves nor per-tick liquidity, so a trade
//! is quoted at a flat rate: the output is the share of the input that the
//! fee leaves, rounded down, and the trade leaves the price where it was. An
//! input so small that nothing would be paid out for it is refused. Supplying asset 0 is the direction in
//! which the square-root price may only fall, supplying asset 1 the one in
//! which it may only rise. A limit that the price after the trade would lie
//! beyond, in the direction of the trade, makes the whole trade fail: nothing
//! is ever filled in part.

use vstd::prelude::*;
use crate::error::ErrorCode;

verus! {

/// The square-root price that stands for 1.0: two to the 64th.
pub const Q64: u128 = 0x1_0000_0000_0000_0000;

/// A fee rate is a number of millionths of the amount supplied.
pub const FEE_RATE_DENOMINATOR: u32 = 1_000_000;

/// The fee rate at which the pool trades: 0.3%.
pub const POOL_FEE_RATE: u32 = 3_000;

/// The price that belongs to a square-root price, with 64 fractional bits,
/// rounded down.
pub open spec fn spec_price(sqrt_price: nat) -> nat {
    sqrt_price * sqrt_price / (Q64 as nat)
}

/// What a trade pays out: the share of the amount supplied that the fee
/// leaves, rounded down.
pub open spec fn spec_swap_output(amount_in: nat, fee_rate: nat) -> int {
    amount_in * (FEE_RATE_DENOMINATOR - fee_rate) / (FEE_RATE_DENOMINATOR as int)
}

/// The square-root price after a trade.
pub open spec fn spec_new_sqrt_price(
    current_sqrt_price: u128,
    amount_in: u64,
    amount_out: u64,
    is_base_input: bool,
) -> u128 {
    current_sqrt_price
}

/// Whether a square-root price respects the caller's limit: at or above it
/// where asset 0 is supplied, at or below it where asset 1 is supplied.
pub open spec fn within_price_limit(sqrt_price: u128, sqrt_price_limit: u128, is_base_input: bool) -> bool {
    if is_base_input {
        sqrt_price_limit <= sqrt_price
    } else {
        sqrt_price <= sqrt_price_limit
    }
}

/// What `compute_swap_output` returns. In this order: a fee rate that is not
/// below the whole is refused; then a limit that the price after the trade
/// would lie beyond; then an amount for which nothing would be paid out.
pub open spec fn spec_compute_swap_output(
    amount_in: u64,
    current_sqrt_price: u128,
    sqrt_price_limit: u128,
    is_base_input: bool,
    fee_rate: u32,
) -> Result<u64, ErrorCode> {
    if fee_rate >= FEE_RATE_DENOMINATOR {
        Err(ErrorCode::InvalidParameters)
    } else {
        let amount_out = spec_swap_output(amount_in as nat, fee_rate as nat) as u64;
        let new_sqrt_price = spec_new_sqrt_price(current_sqrt_price, amount_in, amount_out, is_base_input);
        if !within_price_limit(new_sqrt_price, sqrt_price_limit, is_base_input) {
            Err(ErrorCode::PriceLimitExceeded)
        } else if amount_in > 0 && amount_out == 0 {
            Err(ErrorCode::InsufficientOutputAmount)
        } else {
            Ok(amount_out)
        }
    }
}

/// What is paid out never exceeds what is supplied, and nothing is paid out
/// for nothing.
pub proof fn lemma_swap_output_bounds(amount_in: nat, fee_rate: nat)
    requires
        fee_rate < FEE_RATE_DENOMINATOR,
    ensures
        0 <= spec_swap_output(amount_in, fee_rate) <= amount_in,
        amount_in == 0 ==> spec_swap_output(amount_in, fee_rate) == 0,
{
    let kept = FEE_RATE_DENOMINATOR - fee_rate;
    let p = amount_in * kept;
    assert(0 <= p <= amount_in * 1_000_000) by (nonlinear_arith)
        requires
            p == amount_in * kept,
            0 < kept <= 1_000_000,
    ;
}

/// A larger amount supplied is never paid out less: the output does not fall
/// when the input grows, at any fee rate below the whole.
pub proof fn lemma_swap_output_monotonic(smaller: nat, larger: nat, fee_rate: nat)
    requires
        smaller <= larger,
        fee_rate < FEE_RATE_DENOMINATOR,
    ensures
        spec_swap_output(smaller, fee_rate) <= spec_swap_output(larger, fee_rate),
{
    let kept = FEE_RATE_DENOMINATOR - fee_rate;
    let lower = smaller * kept;
    let upper = larger * kept;
    assert(lower <= upper) by (nonlinear_arith)
        requires
            lower == smaller * kept,
            upper == larger * kept,
            smaller <= larger,
            kept > 0,
    ;
}

/// When a larger amount supplied is paid out more. Amounts are whole numbers,
/// so with any fee the output cannot grow at every step: at the pool's rate
/// of 3000 millionths, 333 and 334 are both paid out 332. The output for the
/// larger amount is the greater one exactly when what the smaller amount left
/// over in the rounding, together with the fee-free share of the difference,
/// makes up a whole unit.
pub proof fn lemma_swap_output_strictly_increasing(smaller: nat, larger: nat, fee_rate: nat)
    requires
        smaller <= larger,
        fee_rate < FEE_RATE_DENOMINATOR,
    ensures
        spec_swap_output(smaller, fee_rate) < spec_swap_output(larger, fee_rate) <==> (smaller * (
        FEE_RATE_DENOMINATOR - fee_rate)) % (FEE_RATE_DENOMINATOR as int) + (larger - smaller) * (
        FEE_RATE_DENOMINATOR - fee_rate) >= FEE_RATE_DENOMINATOR,
{
    let kept = FEE_RATE_DENOMINATOR - fee_rate;
    let lower = smaller * kept;
    let upper = larger * kept;
    let step = (larger - smaller) * kept;
    assert(upper == lower + step && step >= 0) by (nonlinear_arith)
        requires
            lower == smaller * kept,
            upper == larger * kept,
            step == (larger - smaller) * kept,
            smaller <= larger,
            kept > 0,
    ;
}

/// At a fee rate of no more than a half, an amount supplied that is larger by
/// two or more is paid out more.
pub proof fn lemma_swap_output_increases_over_two(smaller: nat, larger: nat, fee_rate: nat)
    requires
        smaller + 2 <= larger,
        2 * fee_rate <= FEE_RATE_DENOMINATOR,
    ensures
        spec_swap_output(smaller, fee_rate) < spec_swap_output(larger, fee_rate),
{
    let kept = FEE_RATE_DENOMINATOR - fee_rate;
    let lower = smaller * kept;
    let upper = larger * kept;
    assert(upper >= lower + 1_000_000) by (nonlinear_arith)
        requires
            lower == smaller * kept,
            upper == larger * kept,
            smaller + 2 <= larger,
            2 * kept >= 1_000_000,
    ;
}

/// A trade never moves the price against its direction: not up where asset 0
/// is supplied, not down where asset 1 is.
pub proof fn lemma_price_moves_with_trade(
    current_sqrt_price: u128,
    amount_in: u64,
    amount_out: u64,
    is_base_input: bool,
)
    ensures
        is_base_input ==> spec_new_sqrt_price(current_sqrt_price, amount_in, amount_out, is_base_input)
            <= current_sqrt_price,
        !is_base_input ==> spec_new_sqrt_price(current_sqrt_price, amount_in, amount_out, is_base_input)
            >= current_sqrt_price,
{
}

/// Splits the square of a 128-bit number by its upper and lower 64 bits:
/// with `s = h * 2^64 + l`, the square of `s`, divided by two to the 64th, is
/// `(h * h) * 2^64 + 2 * (h * l) + (l * l) / 2^64`.
proof fn lemma_square_by_halves(s: nat, h: nat, l: nat)
    requires
        s == h * Q64 + l,
    ensures
        spec_price(s) == (h * h) * Q64 + 2 * (h * l) + (l * l) / (Q64 as nat),
{
    let q = Q64 as int;
    let whole = (h * h) * q + 2 * (h * l);
    let rest = (l * l) as int;
    assert(s * s == rest + whole * q) by (nonlinear_arith)
        requires
            s == h * q + l,
            whole == (h * h) * q + 2 * (h * l),
            rest == l * l,
    ;
    vstd::arithmetic::div_mod::lemma_hoist_over_denominator(rest, whole, q as nat);
}

/// Converts a square-root price to the price it stands for: its square, with
/// 64 fractional bits, rounded down. Fails with `Overflow` exactly when that
/// price does not fit in 128 bits.
pub fn sqrt_price_to_price(sqrt_price: u128) -> (result: Result<u128, ErrorCode>)
    ensures
        match result {
            Ok(price) => price == spec_price(sqrt_price as nat),
            Err(e) => e == ErrorCode::Overflow && spec_price(sqrt_price as nat) > u128::MAX,
        },
{
    let h: u128 = sqrt_price / Q64;
    let l: u128 = sqrt_price % Q64;
    proof {
        lemma_square_by_halves(sqrt_price as nat, h as nat, l as nat);
        assert(h * h <= 0xffff_ffff_ffff_ffff * 0xffff_ffff_ffff_ffff) by (nonlinear_arith)
            requires
                h <= 0xffff_ffff_ffff_ffff,
        ;
        assert(h * l <= 0xffff_ffff_ffff_ffff * 0xffff_ffff_ffff_ffff) by (nonlinear_arith)
            requires
                h <= 0xffff_ffff_ffff_ffff,
                l <= 0xffff_ffff_ffff_ffff,
        ;
        assert(l * l <= 0xffff_ffff_ffff_ffff * 0xffff_ffff_ffff_ffff) by (nonlinear_arith)
            requires
                l <= 0xffff_ffff_ffff_ffff,
        ;
        assert(h * h >= 0 && h * l >= 0 && l * l >= 0) by (nonlinear_arith);
    }
    let upper: u128 = h * h;
    let cross: u128 = h * l;
    let lower: u128 = (l * l) / Q64;
    let upper_scaled: u128 = match upper.checked_mul(Q64) {
        Some(v) => v,
        None => {
            return Err(ErrorCode::Overflow);
        },
    };
    let cross_doubled: u128 = match cross.checked_mul(2) {
        Some(v) => v,
        None => {
            return Err(ErrorCode::Overflow);
        },
    };
    let partial: u128 = match upper_scaled.checked_add(cross_doubled) {
        Some(v) => v,
        None => {
            return Err(ErrorCode::Overflow);
        },
    };
    match partial.checked_add(lower) {
        Some(price) => Ok(price),
        None => Err(ErrorCode::Overflow),
    }
}

/// The square-root price after a trade of `amount_in` for `amount_out`. A
/// trade at the pool's flat rate leaves the price where it was, so the price
/// moves against neither direction of trade.
pub fn compute_new_sqrt_price(
    current_sqrt_price: u128,
    amount_in: u64,
    amount_out: u64,
    is_base_input: bool,
) -> (result: Result<u128, ErrorCode>)
    ensures
        result == Ok::<u128, ErrorCode>(
            spec_new_sqrt_price(current_sqrt_price, amount_in, amount_out, is_base_input),
        ),
{
    Ok(current_sqrt_price)
}

/// Quotes a trade: what is paid out for `amount_in` at the given fee rate, in
/// millionths. The share of the amount supplied that the fee leaves is paid
/// out one for one, rounded down.
///
/// Fails with `InvalidParameters` where the fee rate is not below the whole,
/// with `PriceLimitExceeded` where the price after the trade would lie beyond
/// `sqrt_price_limit` in the direction of the trade, and with
/// `InsufficientOutputAmount` where an amount that is not zero would be paid
/// out nothing. So the output is zero only for an input of zero.
pub fn compute_swap_output(
    amount_in: u64,
    current_sqrt_price: u128,
    sqrt_price_limit: u128,
    is_base_input: bool,
    fee_rate: u32,
) -> (result: Result<u64, ErrorCode>)
    ensures
        result == spec_compute_swap_output(
            amount_in,
            current_sqrt_price,
            sqrt_price_limit,
            is_base_input,
            fee_rate,
        ),
        result is Ok ==> result->Ok_0 == amount_in * (FEE_RATE_DENOMINATOR - fee_rate) / (
        FEE_RATE_DENOMINATOR as int),
        result is Ok ==> (result->Ok_0 == 0 <==> amount_in == 0),
{
    if fee_rate >= FEE_RATE_DENOMINATOR {
        return Err(ErrorCode::InvalidParameters);
    }
    let kept: u32 = FEE_RATE_DENOMINATOR - fee_rate;
    proof {
        lemma_swap_output_bounds(amount_in as nat, fee_rate as nat);
        assert(0 <= amount_in * kept <= 0xffff_ffff_ffff_ffff * 1_000_000) by (nonlinear_arith)
            requires
                0 <= amount_in <= 0xffff_ffff_ffff_ffff,
                0 <= kept <= 1_000_000,
        ;
    }
    let scaled: u128 = (amount_in as u128) * (kept as u128) / (FEE_RATE_DENOMINATOR as u128);
    let amount_out: u64 = scaled as u64;
    let new_sqrt_price: u128 = match compute_new_sqrt_price(
        current_sqrt_price,
        amount_in,
        amount_out,
        is_base_input,
    ) {
        Ok(price) => price,
        Err(e) => {
            return Err(e);
        },
    };
    let within_limit: bool = if is_base_input {
        sqrt_price_limit <= new_sqrt_price
    } else {
        new_sqrt_price <= sqrt_price_limit
    };
    if !within_limit {
        return Err(ErrorCode::PriceLimitExceeded);
    }
    if amount_in > 0 && amount_out == 0 {
        return Err(ErrorCode::InsufficientOutputAmount);
    }
    Ok(amount_out)
}

} // verus!
