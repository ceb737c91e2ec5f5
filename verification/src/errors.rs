//! The error taxonomy of the pool operations.

use vstd::prelude::*;

verus! {

/// Every failure a pool operation can surface. All errors are local
/// validation failures reported synchronously; the hosting runtime rolls
/// the whole operation back, so no partial state survives a failure.
#[derive(Clone, Copy, Debug, PartialEq, Eq, Structural)]
pub enum SwapError {
    /// A supplied token account's mint does not match the asset the pool
    /// requires at that position.
    InvalidMint,
    /// The caller's receiving account does not hold the asset the
    /// destination vault pays out.
    InvalidDestinationMint,
    /// An input amount must be greater than zero.
    ZeroAmount,
    /// A pool reserve is zero; no price exists.
    PoolIsEmpty,
    /// The computed output fell short of the caller's stated minimum.
    SlippageExceeded,
    /// A checked arithmetic step overflowed. With 64-bit amounts and
    /// 128-bit intermediates no pricing step can overflow, so the verified
    /// operations never return it; the variant remains part of the taxonomy.
    CalculationOverflow,
    /// A supplied vault account is not the one the pool record binds, or is
    /// not owned by the pool's derived authority.
    InvalidVault,
    /// A caller's token account is not owned by the signing caller.
    InvalidOwner,
    /// A single trade would move the price by more than the allowed bound.
    ExcessivePriceImpact,
    /// A two-sided deposit falls outside the tolerated ratio band.
    DisproportionateLiquidity,
    /// A pool for this unordered asset pair already exists; creation never
    /// overwrites.
    AlreadyInitialized,
}

} // verus!
