//! The swap operation: identity validation, vault selection, pricing, and
//! the two authorized transfer legs.

use crate::errors::SwapError;
use crate::events::SwapEvent;
use crate::ids::{AccountId, MintInfo, TokenAccountInfo};
use crate::pool::PoolAccount;
use crate::pricing::{
    compute_swap, spec_amount_out, spec_price_impact_bps, spec_swap_succeeds, MAX_PRICE_IMPACT_BPS,
};
use crate::transfer::{TransferAuthority, TransferAuthorization};
use vstd::prelude::*;

verus! {

/// The accounts handed to a swap.
#[derive(Clone, Copy, Debug, PartialEq, Eq, Structural)]
pub struct Swap {
    /// The mint of the token the caller sends in.
    pub source_mint: MintInfo,
    /// The mint of the token the caller receives.
    pub destination_mint: MintInfo,
    /// The pool the swap runs against.
    pub pool: PoolAccount,
    /// The pool's derived signing authority.
    pub pool_authority: AccountId,
    /// The caller's funding account.
    pub user_source_token_account: TokenAccountInfo,
    /// The caller's receiving account.
    pub user_destination_token_account: TokenAccountInfo,
    /// The pool's vault for the lower asset, with its balance read fresh.
    pub token_a_vault: TokenAccountInfo,
    /// The pool's vault for the higher asset, with its balance read fresh.
    pub token_b_vault: TokenAccountInfo,
    /// The caller signing the swap.
    pub user_authority: AccountId,
}

/// The identity checks the host applies to the swap accounts before the
/// handler runs, in declaration order, first failure wins: the two vaults
/// are the ones the pool record binds, the two named mints are the pool's
/// pair in one order or the other, the caller owns both user accounts and
/// each holds its named mint, and each vault is owned by the pool
/// authority and holds its bound asset.
pub open spec fn spec_validate_swap_accounts(a: Swap) -> Result<(), SwapError> {
    if a.token_a_vault.address != a.pool.data.token_a_vault {
        Err(SwapError::InvalidVault)
    } else if a.token_b_vault.address != a.pool.data.token_b_vault {
        Err(SwapError::InvalidVault)
    } else if !((a.pool.data.token_a_mint == a.source_mint.address && a.pool.data.token_b_mint
        == a.destination_mint.address) || (a.pool.data.token_a_mint == a.destination_mint.address
        && a.pool.data.token_b_mint == a.source_mint.address)) {
        Err(SwapError::InvalidMint)
    } else if a.user_source_token_account.owner != a.user_authority {
        Err(SwapError::InvalidOwner)
    } else if a.user_source_token_account.mint != a.source_mint.address {
        Err(SwapError::InvalidMint)
    } else if a.user_destination_token_account.owner != a.user_authority {
        Err(SwapError::InvalidOwner)
    } else if a.user_destination_token_account.mint != a.destination_mint.address {
        Err(SwapError::InvalidMint)
    } else if a.token_a_vault.owner != a.pool_authority {
        Err(SwapError::InvalidVault)
    } else if a.token_a_vault.mint != a.pool.data.token_a_mint {
        Err(SwapError::InvalidMint)
    } else if a.token_b_vault.owner != a.pool_authority {
        Err(SwapError::InvalidVault)
    } else if a.token_b_vault.mint != a.pool.data.token_b_mint {
        Err(SwapError::InvalidMint)
    } else {
        Ok(())
    }
}

/// All identity checks on the swap accounts pass.
pub open spec fn swap_accounts_ok(a: Swap) -> bool {
    spec_validate_swap_accounts(a) is Ok
}

/// Checks the swap accounts as the host would, before any balance is
/// touched.
pub fn validate_swap_accounts(a: &Swap) -> (r: Result<(), SwapError>)
    ensures
        r == spec_validate_swap_accounts(*a),
        r is Ok <==> swap_accounts_ok(*a),
{
    if a.token_a_vault.address != a.pool.data.token_a_vault {
        Err(SwapError::InvalidVault)
    } else if a.token_b_vault.address != a.pool.data.token_b_vault {
        Err(SwapError::InvalidVault)
    } else if !((a.pool.data.token_a_mint == a.source_mint.address && a.pool.data.token_b_mint
        == a.destination_mint.address) || (a.pool.data.token_a_mint == a.destination_mint.address
        && a.pool.data.token_b_mint == a.source_mint.address)) {
        Err(SwapError::InvalidMint)
    } else if a.user_source_token_account.owner != a.user_authority {
        Err(SwapError::InvalidOwner)
    } else if a.user_source_token_account.mint != a.source_mint.address {
        Err(SwapError::InvalidMint)
    } else if a.user_destination_token_account.owner != a.user_authority {
        Err(SwapError::InvalidOwner)
    } else if a.user_destination_token_account.mint != a.destination_mint.address {
        Err(SwapError::InvalidMint)
    } else if a.token_a_vault.owner != a.pool_authority {
        Err(SwapError::InvalidVault)
    } else if a.token_a_vault.mint != a.pool.data.token_a_mint {
        Err(SwapError::InvalidMint)
    } else if a.token_b_vault.owner != a.pool_authority {
        Err(SwapError::InvalidVault)
    } else if a.token_b_vault.mint != a.pool.data.token_b_mint {
        Err(SwapError::InvalidMint)
    } else {
        Ok(())
    }
}

/// The caller's funding account holds one of the pool's two assets.
pub open spec fn swap_source_recognized(a: Swap) -> bool {
    a.user_source_token_account.mint == a.pool.data.token_a_mint
        || a.user_source_token_account.mint == a.pool.data.token_b_mint
}

/// The caller sends the lower asset in (and takes the higher out).
pub open spec fn swap_source_is_token_a(a: Swap) -> bool {
    a.user_source_token_account.mint == a.pool.data.token_a_mint
}

/// The vault that receives the input, by the funding account's mint.
pub open spec fn spec_source_vault(a: Swap) -> TokenAccountInfo {
    if swap_source_is_token_a(a) {
        a.token_a_vault
    } else {
        a.token_b_vault
    }
}

/// The vault that pays the output.
pub open spec fn spec_dest_vault(a: Swap) -> TokenAccountInfo {
    if swap_source_is_token_a(a) {
        a.token_b_vault
    } else {
        a.token_a_vault
    }
}

/// The caller's receiving account holds the asset the paying vault holds.
pub open spec fn swap_destination_matches(a: Swap) -> bool {
    a.user_destination_token_account.mint == spec_dest_vault(a).mint
}

/// The input-side reserve: the receiving vault's fresh balance.
pub open spec fn spec_reserve_in(a: Swap) -> u64 {
    spec_source_vault(a).amount
}

/// The output-side reserve: the paying vault's fresh balance.
pub open spec fn spec_reserve_out(a: Swap) -> u64 {
    spec_dest_vault(a).amount
}

/// Everything a successful swap authorizes and reports.
#[derive(Clone, Copy, Debug, PartialEq, Eq, Structural)]
pub struct SwapOutcome {
    /// The computed output amount.
    pub amount_out: u64,
    /// The caller-signed leg: input into the receiving vault.
    pub transfer_in: TransferAuthorization,
    /// The authority-signed leg: output out of the paying vault.
    pub transfer_out: TransferAuthorization,
    /// The event the host emits.
    pub event: SwapEvent,
}

/// The outcome a successful swap returns: the caller-signed input leg, the
/// output leg signed by the pool's derived authority over the canonical
/// pair and stored bump, and the reporting event.
pub open spec fn spec_swap_outcome(a: Swap, amount_in: u64) -> SwapOutcome {
    let amount_out = spec_amount_out(spec_reserve_in(a), spec_reserve_out(a), amount_in) as u64;
    SwapOutcome {
        amount_out,
        transfer_in: TransferAuthorization {
            from: a.user_source_token_account.address,
            mint: a.source_mint.address,
            to: spec_source_vault(a).address,
            authority: TransferAuthority::User(a.user_authority),
            amount: amount_in,
            decimals: a.source_mint.decimals,
        },
        transfer_out: TransferAuthorization {
            from: spec_dest_vault(a).address,
            mint: a.destination_mint.address,
            to: a.user_destination_token_account.address,
            authority: TransferAuthority::PoolDerived {
                asset_low: a.pool.data.token_a_mint,
                asset_high: a.pool.data.token_b_mint,
                bump: a.pool.data.bump,
            },
            amount: amount_out,
            decimals: a.destination_mint.decimals,
        },
        event: SwapEvent {
            pool: a.pool.address,
            user: a.user_authority,
            amount_in,
            amount_out,
            source_mint: a.source_mint.address,
            destination_mint: a.destination_mint.address,
        },
    }
}

/// Swaps `amount_in` of the funding account's asset against the pool. The
/// funding account's mint picks the direction; the reserves are the two
/// vault balances as read at this instant, never an earlier value. The
/// checks run in order — funding asset recognized, receiving account
/// matched against the paying vault, reserves present, positive input,
/// slippage guard, price-impact guard — and the first failure names the
/// operation's error. On success the outcome carries the exact
/// constant-product output and both authorized transfer legs.
pub fn swap(a: &Swap, amount_in: u64, min_amount_out: u64) -> (r: Result<SwapOutcome, SwapError>)
    ensures
        !swap_source_recognized(*a) ==> r == Err::<SwapOutcome, SwapError>(SwapError::InvalidMint),
        swap_source_recognized(*a) && !swap_destination_matches(*a) ==> r == Err::<
            SwapOutcome,
            SwapError,
        >(SwapError::InvalidDestinationMint),
        swap_source_recognized(*a) && swap_destination_matches(*a) ==> ({
            let reserve_in = spec_reserve_in(*a);
            let reserve_out = spec_reserve_out(*a);
            &&& (reserve_in == 0 || reserve_out == 0) ==> r == Err::<SwapOutcome, SwapError>(
                SwapError::PoolIsEmpty,
            )
            &&& reserve_in > 0 && reserve_out > 0 && amount_in == 0 ==> r == Err::<
                SwapOutcome,
                SwapError,
            >(SwapError::ZeroAmount)
            &&& reserve_in > 0 && reserve_out > 0 && amount_in > 0 && spec_amount_out(
                reserve_in,
                reserve_out,
                amount_in,
            ) < min_amount_out ==> r == Err::<SwapOutcome, SwapError>(SwapError::SlippageExceeded)
            &&& reserve_in > 0 && reserve_out > 0 && amount_in > 0 && spec_amount_out(
                reserve_in,
                reserve_out,
                amount_in,
            ) >= min_amount_out && spec_price_impact_bps(reserve_in, reserve_out, amount_in)
                > MAX_PRICE_IMPACT_BPS ==> r == Err::<SwapOutcome, SwapError>(
                SwapError::ExcessivePriceImpact,
            )
            &&& spec_swap_succeeds(reserve_in, reserve_out, amount_in, min_amount_out) ==> r
                == Ok::<SwapOutcome, SwapError>(spec_swap_outcome(*a, amount_in))
        }),
        r is Ok <==> swap_source_recognized(*a) && swap_destination_matches(*a)
            && spec_swap_succeeds(spec_reserve_in(*a), spec_reserve_out(*a), amount_in, min_amount_out),
{
    let pool = &a.pool.data;
    if a.user_source_token_account.mint != pool.token_a_mint
        && a.user_source_token_account.mint != pool.token_b_mint {
        return Err(SwapError::InvalidMint);
    }
    let source_is_token_a = a.user_source_token_account.mint == pool.token_a_mint;
    let source_vault = if source_is_token_a {
        &a.token_a_vault
    } else {
        &a.token_b_vault
    };
    let dest_vault = if source_is_token_a {
        &a.token_b_vault
    } else {
        &a.token_a_vault
    };
    if a.user_destination_token_account.mint != dest_vault.mint {
        return Err(SwapError::InvalidDestinationMint);
    }
    let reserve_in = source_vault.amount;
    let reserve_out = dest_vault.amount;
    let amount_out = match compute_swap(reserve_in, reserve_out, amount_in, min_amount_out) {
        Ok(v) => v,
        Err(e) => {
            return Err(e);
        },
    };
    let transfer_in = TransferAuthorization {
        from: a.user_source_token_account.address,
        mint: a.source_mint.address,
        to: source_vault.address,
        authority: TransferAuthority::User(a.user_authority),
        amount: amount_in,
        decimals: a.source_mint.decimals,
    };
    let transfer_out = TransferAuthorization {
        from: dest_vault.address,
        mint: a.destination_mint.address,
        to: a.user_destination_token_account.address,
        authority: TransferAuthority::PoolDerived {
            asset_low: pool.token_a_mint,
            asset_high: pool.token_b_mint,
            bump: pool.bump,
        },
        amount: amount_out,
        decimals: a.destination_mint.decimals,
    };
    let event = SwapEvent {
        pool: a.pool.address,
        user: a.user_authority,
        amount_in,
        amount_out,
        source_mint: a.source_mint.address,
        destination_mint: a.destination_mint.address,
    };
    Ok(SwapOutcome { amount_out, transfer_in, transfer_out, event })
}

} // verus!
