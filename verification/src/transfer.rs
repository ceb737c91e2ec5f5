//! The transfer boundary: what the core hands the token-transfer
//! collaborator, and the plain point-to-point transfer operation.

use crate::errors::SwapError;
use crate::events::TransactionEvent;
use crate::ids::{AccountId, MintInfo, TokenAccountInfo};
use vstd::prelude::*;

verus! {

/// Who signs a transfer out of an account.
#[derive(Clone, Copy, Debug, PartialEq, Eq, Structural)]
pub enum TransferAuthority {
    /// The owning caller signs with their own key.
    User(AccountId),
    /// The pool's derived authority signs by reproducing its derivation:
    /// the fixed pool label, the two canonical asset mints, and the stored
    /// bump value.
    PoolDerived { asset_low: AccountId, asset_high: AccountId, bump: u8 },
}

/// One authorized leg of token movement, checked by the collaborator
/// against the declared decimals of the asset being moved. The core only
/// constructs these; the host performs them, all-or-nothing per operation.
#[derive(Clone, Copy, Debug, PartialEq, Eq, Structural)]
pub struct TransferAuthorization {
    /// The account debited.
    pub from: AccountId,
    /// The mint of the asset moved.
    pub mint: AccountId,
    /// The account credited.
    pub to: AccountId,
    /// Who signs for the debit.
    pub authority: TransferAuthority,
    /// The amount moved.
    pub amount: u64,
    /// The declared decimals the transfer is checked against.
    pub decimals: u8,
}

/// The accounts handed to the point-to-point transfer operation.
#[derive(Clone, Copy, Debug, PartialEq, Eq, Structural)]
pub struct ProcessTransaction {
    /// The mint of the token being moved.
    pub sender_token_account_mint: MintInfo,
    /// The account sending the tokens.
    pub sender_token_account: TokenAccountInfo,
    /// The account receiving the tokens.
    pub receiver_token_account: TokenAccountInfo,
    /// The signer authorizing the debit.
    pub authority: AccountId,
}

/// The identity checks the host applies to the transfer accounts before the
/// operation itself runs, in declaration order, first failure wins.
pub open spec fn spec_validate_process_transaction(a: ProcessTransaction) -> Result<(), SwapError> {
    if a.sender_token_account.owner != a.authority {
        Err(SwapError::InvalidOwner)
    } else if a.sender_token_account.mint != a.sender_token_account_mint.address {
        Err(SwapError::InvalidMint)
    } else if a.receiver_token_account.mint != a.sender_token_account_mint.address {
        Err(SwapError::InvalidMint)
    } else {
        Ok(())
    }
}

/// All identity checks on the transfer accounts pass.
pub open spec fn process_transaction_accounts_ok(a: ProcessTransaction) -> bool {
    &&& a.sender_token_account.owner == a.authority
    &&& a.sender_token_account.mint == a.sender_token_account_mint.address
    &&& a.receiver_token_account.mint == a.sender_token_account_mint.address
}

/// Checks that the sender account is owned by the signer and that sender
/// and receiver both hold the named mint.
pub fn validate_process_transaction_accounts(a: &ProcessTransaction) -> (r: Result<(), SwapError>)
    ensures
        r == spec_validate_process_transaction(*a),
        r is Ok <==> process_transaction_accounts_ok(*a),
{
    if a.sender_token_account.owner != a.authority {
        Err(SwapError::InvalidOwner)
    } else if a.sender_token_account.mint != a.sender_token_account_mint.address {
        Err(SwapError::InvalidMint)
    } else if a.receiver_token_account.mint != a.sender_token_account_mint.address {
        Err(SwapError::InvalidMint)
    } else {
        Ok(())
    }
}

/// The point-to-point transfer: authorizes moving `amount` from the sender
/// account to the receiver account, signed by the caller and checked
/// against the mint's declared decimals, and reports it. It carries no pool
/// state and applies no policy of its own.
pub fn process_transaction(a: &ProcessTransaction, amount: u64) -> (r: (
    TransferAuthorization,
    TransactionEvent,
))
    ensures
        r.0 == (TransferAuthorization {
            from: a.sender_token_account.address,
            mint: a.sender_token_account_mint.address,
            to: a.receiver_token_account.address,
            authority: TransferAuthority::User(a.authority),
            amount,
            decimals: a.sender_token_account_mint.decimals,
        }),
        r.1 == (TransactionEvent {
            from: a.authority,
            to: a.receiver_token_account.address,
            amount,
        }),
{
    let transfer = TransferAuthorization {
        from: a.sender_token_account.address,
        mint: a.sender_token_account_mint.address,
        to: a.receiver_token_account.address,
        authority: TransferAuthority::User(a.authority),
        amount,
        decimals: a.sender_token_account_mint.decimals,
    };
    let event = TransactionEvent { from: a.authority, to: a.receiver_token_account.address, amount };
    (transfer, event)
}

} // verus!
