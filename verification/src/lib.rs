//! A constant-product pool: its configuration, the checks and token movements of
//! its instructions, and the laws that hold of them, verified with Verus.
pub mod address;
pub mod contexts;
pub mod error;
pub mod events;
pub mod laws;
pub mod plan;
pub mod seeds;
pub mod state;

pub use contexts::init::{Initialize, InitializeBumps, PoolSetup};
pub use contexts::lock_pool::LockPool;
pub use contexts::swap::{LiquidityPair, Swap, SwapArgs, SwapPlan, SwapQuery, SwapQuote};
pub use contexts::withdraw::{Withdraw, WithdrawPlan, WithdrawQuery, XYAmounts, LP_DECIMALS};
