//! A two-asset constant-product liquidity pool.
//!
//! The crate holds the pool state machine and pricing engine of an automated
//! market maker: canonical pool identity over an unordered pair of asset
//! mints, constant-product swap pricing with slippage and price-impact
//! guards, and proportional-deposit validation for liquidity additions.
//! Moving tokens, creating accounts and deriving the signing authority are
//! the hosting ledger's business; the core only decides, and hands the
//! caller the transfers it has authorized as plain data.

pub mod errors;
pub mod events;
pub mod ids;
pub mod liquidity;
pub mod pool;
pub mod pricing;
pub mod swap;
pub mod transfer;
