//! A constant-product automated market maker: curve math, pool state and
//! the swap and liquidity-withdrawal operations, with their settlement plans.
pub mod curve;
pub mod pool;
pub mod settlement;
pub mod swap;
pub mod withdraw;
