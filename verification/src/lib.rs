//! Transactional core of a concentrated-liquidity market maker.
//!
//! A pool lets traders exchange one asset for another and lets providers
//! deposit both assets for a range of ticks. This crate holds the pool's
//! record, its price arithmetic and the rules of its three operations:
//! creating a pool, trading against it and providing liquidity to it. Assets
//! are held elsewhere: an operation names the transfers that belong to it and
//! leaves it to the host to carry them out together with the change of the
//! pool, all or nothing.

pub mod address;
pub mod custody;
pub mod error;
pub mod liquidity_engine;
pub mod pool_factory;
pub mod pool_state;
pub mod price_math;
pub mod swap_engine;

pub use crate::address::Address;
pub use crate::custody::TransferRequest;
pub use crate::error::ErrorCode;
pub use crate::liquidity_engine::{add_liquidity, AddLiquidity, LiquidityRequest, LiquidityResult};
pub use crate::pool_factory::{create_pool, initialize_pool, InitializePool};
pub use crate::pool_state::PoolState;
pub use crate::swap_engine::{
    execute_swap, swap, swap_deposit, Swap, SwapRequest, SwapResult, SwapSettlement,
};
