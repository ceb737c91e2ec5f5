//! The events a successful operation asks the host to emit.

use crate::ids::AccountId;
use vstd::prelude::*;

verus! {

/// Emitted when the plain point-to-point transfer operation completes.
#[derive(Clone, Copy, Debug, PartialEq, Eq, Structural)]
pub struct TransactionEvent {
    pub from: AccountId,
    pub to: AccountId,
    pub amount: u64,
}

/// Emitted when a swap completes.
#[derive(Clone, Copy, Debug, PartialEq, Eq, Structural)]
pub struct SwapEvent {
    /// The address of the pool the swap ran against.
    pub pool: AccountId,
    /// The caller who performed the swap.
    pub user: AccountId,
    /// The amount of tokens sent into the pool.
    pub amount_in: u64,
    /// The amount of tokens paid out of the pool.
    pub amount_out: u64,
    /// The mint of the token sent into the pool.
    pub source_mint: AccountId,
    /// The mint of the token paid out of the pool.
    pub destination_mint: AccountId,
}

/// Emitted when a two-sided deposit is accepted.
#[derive(Clone, Copy, Debug, PartialEq, Eq, Structural)]
pub struct LiquidityAddedEvent {
    pub pool: AccountId,
    pub user: AccountId,
    pub amount_a: u64,
    pub amount_b: u64,
}

} // verus!
