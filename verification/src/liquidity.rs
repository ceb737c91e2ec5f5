//! The liquidity provision operation: a two-sided deposit and the
//! proportionality band it must keep.
//!
//! The ratio band is judged against the reserves as they stand after both
//! deposits have landed — the read-timing choice this library makes and
//! pins in its contracts: the host performs the two transfers, re-reads
//! the vault balances, and the band compares the higher-asset deposit to
//! `amount_a * reserve_b / reserve_a` over those post-deposit reserves. A
//! failed band check still fails the whole operation, and the host rolls
//! both deposits back.

use crate::errors::SwapError;
use crate::events::LiquidityAddedEvent;
use crate::ids::{AccountId, MintInfo, TokenAccountInfo};
use crate::pool::PoolAccount;
use crate::transfer::{TransferAuthority, TransferAuthorization};
use vstd::arithmetic::div_mod::{lemma_div_is_ordered, lemma_div_multiples_vanish, lemma_div_pos_is_pos};
use vstd::arithmetic::mul::lemma_mul_inequality;
use vstd::prelude::*;

verus! {

/// The accounts handed to a liquidity addition.
#[derive(Clone, Copy, Debug, PartialEq, Eq, Structural)]
pub struct AddLiquidity {
    /// The pool receiving the deposit.
    pub pool: PoolAccount,
    /// The pool's derived signing authority.
    pub pool_authority: AccountId,
    /// The pool's lower asset mint.
    pub token_a_mint: MintInfo,
    /// The pool's higher asset mint.
    pub token_b_mint: MintInfo,
    /// The caller's account funding the lower-asset deposit.
    pub user_token_a_account: TokenAccountInfo,
    /// The caller's account funding the higher-asset deposit.
    pub user_token_b_account: TokenAccountInfo,
    /// The pool's vault for the lower asset, with its balance read fresh.
    pub token_a_vault: TokenAccountInfo,
    /// The pool's vault for the higher asset, with its balance read fresh.
    pub token_b_vault: TokenAccountInfo,
    /// The caller signing both deposits.
    pub user_authority: AccountId,
}

/// The identity checks the host applies to the deposit accounts before the
/// operation itself runs, in declaration order, first failure wins: the
/// two vaults are the ones the pool record binds, the two named mints are
/// the pool's pair in canonical order, the caller owns both funding
/// accounts and each holds its named mint, and both vaults are owned by
/// the pool authority.
pub open spec fn spec_validate_add_liquidity_accounts(a: AddLiquidity) -> Result<(), SwapError> {
    if a.token_a_vault.address != a.pool.data.token_a_vault {
        Err(SwapError::InvalidVault)
    } else if a.token_b_vault.address != a.pool.data.token_b_vault {
        Err(SwapError::InvalidVault)
    } else if a.token_a_mint.address != a.pool.data.token_a_mint {
        Err(SwapError::InvalidMint)
    } else if a.token_b_mint.address != a.pool.data.token_b_mint {
        Err(SwapError::InvalidMint)
    } else if a.user_token_a_account.owner != a.user_authority {
        Err(SwapError::InvalidOwner)
    } else if a.user_token_a_account.mint != a.token_a_mint.address {
        Err(SwapError::InvalidMint)
    } else if a.user_token_b_account.owner != a.user_authority {
        Err(SwapError::InvalidOwner)
    } else if a.user_token_b_account.mint != a.token_b_mint.address {
        Err(SwapError::InvalidMint)
    } else if a.token_a_vault.owner != a.pool_authority {
        Err(SwapError::InvalidVault)
    } else if a.token_b_vault.owner != a.pool_authority {
        Err(SwapError::InvalidVault)
    } else {
        Ok(())
    }
}

/// All identity checks on the deposit accounts pass.
pub open spec fn add_liquidity_accounts_ok(a: AddLiquidity) -> bool {
    spec_validate_add_liquidity_accounts(a) is Ok
}

/// Checks the deposit accounts as the host would, before any balance is
/// touched.
pub fn validate_add_liquidity_accounts(a: &AddLiquidity) -> (r: Result<(), SwapError>)
    ensures
        r == spec_validate_add_liquidity_accounts(*a),
        r is Ok <==> add_liquidity_accounts_ok(*a),
{
    if a.token_a_vault.address != a.pool.data.token_a_vault {
        Err(SwapError::InvalidVault)
    } else if a.token_b_vault.address != a.pool.data.token_b_vault {
        Err(SwapError::InvalidVault)
    } else if a.token_a_mint.address != a.pool.data.token_a_mint {
        Err(SwapError::InvalidMint)
    } else if a.token_b_mint.address != a.pool.data.token_b_mint {
        Err(SwapError::InvalidMint)
    } else if a.user_token_a_account.owner != a.user_authority {
        Err(SwapError::InvalidOwner)
    } else if a.user_token_a_account.mint != a.token_a_mint.address {
        Err(SwapError::InvalidMint)
    } else if a.user_token_b_account.owner != a.user_authority {
        Err(SwapError::InvalidOwner)
    } else if a.user_token_b_account.mint != a.token_b_mint.address {
        Err(SwapError::InvalidMint)
    } else if a.token_a_vault.owner != a.pool_authority {
        Err(SwapError::InvalidVault)
    } else if a.token_b_vault.owner != a.pool_authority {
        Err(SwapError::InvalidVault)
    } else {
        Ok(())
    }
}

/// The lower-asset reserve after the deposit lands.
pub open spec fn spec_post_reserve_a(a: AddLiquidity, amount_a: u64) -> int {
    a.token_a_vault.amount + amount_a
}

/// The higher-asset reserve after the deposit lands.
pub open spec fn spec_post_reserve_b(a: AddLiquidity, amount_b: u64) -> int {
    a.token_b_vault.amount + amount_b
}

/// The higher-asset amount a perfectly proportional deposit would carry,
/// judged over the post-deposit reserves, truncating toward zero.
pub open spec fn spec_expected_b(a: AddLiquidity, amount_a: u64, amount_b: u64) -> int {
    amount_a * spec_post_reserve_b(a, amount_b) / spec_post_reserve_a(a, amount_a)
}

/// The deposit keeps the reserve ratio within one per cent either side of
/// proportional.
pub open spec fn spec_liquidity_proportionate(a: AddLiquidity, amount_a: u64, amount_b: u64) -> bool {
    let expected_b = spec_expected_b(a, amount_a, amount_b);
    expected_b * 99 / 100 <= amount_b <= expected_b * 101 / 100
}

/// Everything an accepted deposit authorizes and reports.
#[derive(Clone, Copy, Debug, PartialEq, Eq, Structural)]
pub struct LiquidityOutcome {
    /// The caller-signed leg into the lower-asset vault.
    pub transfer_a: TransferAuthorization,
    /// The caller-signed leg into the higher-asset vault.
    pub transfer_b: TransferAuthorization,
    /// The event the host emits.
    pub event: LiquidityAddedEvent,
}

/// The outcome an accepted deposit returns: both caller-signed legs,
/// each checked against its own mint's decimals, and the reporting event.
pub open spec fn spec_liquidity_outcome(a: AddLiquidity, amount_a: u64, amount_b: u64) -> LiquidityOutcome {
    LiquidityOutcome {
        transfer_a: TransferAuthorization {
            from: a.user_token_a_account.address,
            mint: a.token_a_mint.address,
            to: a.token_a_vault.address,
            authority: TransferAuthority::User(a.user_authority),
            amount: amount_a,
            decimals: a.token_a_mint.decimals,
        },
        transfer_b: TransferAuthorization {
            from: a.user_token_b_account.address,
            mint: a.token_b_mint.address,
            to: a.token_b_vault.address,
            authority: TransferAuthority::User(a.user_authority),
            amount: amount_b,
            decimals: a.token_b_mint.decimals,
        },
        event: LiquidityAddedEvent {
            pool: a.pool.address,
            user: a.user_authority,
            amount_a,
            amount_b,
        },
    }
}

/// Adds a two-sided deposit, `amount_a` of the lower asset and `amount_b`
/// of the higher. A zero on either side is refused before any transfer is
/// authorized. Otherwise both deposits are authorized and the
/// proportionality band is judged over the post-deposit reserves; a
/// deposit outside the band fails the whole operation, which the host then
/// rolls back. The vault balances may not overflow under the deposit: the
/// transfer collaborator refuses such a deposit, so those inputs are
/// outside this operation.
///
/// The band arithmetic cannot overflow its 128-bit intermediates: the
/// proportional amount never exceeds the post-deposit higher reserve, so
/// the saturation point of the band edges is out of reach for 64-bit
/// balances.
pub fn add_liquidity(a: &AddLiquidity, amount_a: u64, amount_b: u64) -> (r: Result<
    LiquidityOutcome,
    SwapError,
>)
    requires
        a.token_a_vault.amount + amount_a <= u64::MAX,
        a.token_b_vault.amount + amount_b <= u64::MAX,
    ensures
        amount_a == 0 || amount_b == 0 ==> r == Err::<LiquidityOutcome, SwapError>(
            SwapError::ZeroAmount,
        ),
        amount_a > 0 && amount_b > 0 && !spec_liquidity_proportionate(*a, amount_a, amount_b)
            ==> r == Err::<LiquidityOutcome, SwapError>(SwapError::DisproportionateLiquidity),
        amount_a > 0 && amount_b > 0 && spec_liquidity_proportionate(*a, amount_a, amount_b) ==> r
            == Ok::<LiquidityOutcome, SwapError>(spec_liquidity_outcome(*a, amount_a, amount_b)),
        r is Ok <==> amount_a > 0 && amount_b > 0 && spec_liquidity_proportionate(
            *a,
            amount_a,
            amount_b,
        ),
{
    if amount_a == 0 || amount_b == 0 {
        return Err(SwapError::ZeroAmount);
    }
    let reserve_a: u64 = a.token_a_vault.amount + amount_a;
    let reserve_b: u64 = a.token_b_vault.amount + amount_b;
    proof {
        assert(amount_a * reserve_b <= u64::MAX * u64::MAX) by (nonlinear_arith)
            requires
                0 <= amount_a <= u64::MAX,
                0 <= reserve_b <= u64::MAX,
        ;
        lemma_div_pos_is_pos(amount_a * reserve_b, reserve_a as int);
        lemma_mul_inequality(amount_a as int, reserve_a as int, reserve_b as int);
        lemma_div_is_ordered(amount_a * reserve_b, reserve_a * reserve_b, reserve_a as int);
        lemma_div_multiples_vanish(reserve_b as int, reserve_a as int);
        assert(spec_expected_b(*a, amount_a, amount_b) <= reserve_b);
    }
    let expected_b: u128 = (amount_a as u128) * (reserve_b as u128) / (reserve_a as u128);
    let min_expected_b: u128 = expected_b * 99 / 100;
    let max_expected_b: u128 = expected_b * 101 / 100;
    let amount_b_wide: u128 = amount_b as u128;
    if amount_b_wide < min_expected_b || amount_b_wide > max_expected_b {
        return Err(SwapError::DisproportionateLiquidity);
    }
    let transfer_a = TransferAuthorization {
        from: a.user_token_a_account.address,
        mint: a.token_a_mint.address,
        to: a.token_a_vault.address,
        authority: TransferAuthority::User(a.user_authority),
        amount: amount_a,
        decimals: a.token_a_mint.decimals,
    };
    let transfer_b = TransferAuthorization {
        from: a.user_token_b_account.address,
        mint: a.token_b_mint.address,
        to: a.token_b_vault.address,
        authority: TransferAuthority::User(a.user_authority),
        amount: amount_b,
        decimals: a.token_b_mint.decimals,
    };
    let event = LiquidityAddedEvent {
        pool: a.pool.address,
        user: a.user_authority,
        amount_a,
        amount_b,
    };
    Ok(LiquidityOutcome { transfer_a, transfer_b, event })
}

} // verus!
