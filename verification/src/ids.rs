//! Ledger addresses and the account data the core reads.

use vstd::prelude::*;

verus! {

/// A 32-byte ledger address (an asset mint, a vault, a wallet, or a derived
/// authority), held as the two 128-bit halves of its big-endian byte
/// representation: `hi` is the first sixteen bytes, `lo` the last sixteen.
/// Byte-lexicographic order on addresses is therefore lexicographic order
/// on `(hi, lo)`.
#[derive(Clone, Copy, Debug, PartialEq, Eq, Structural)]
pub struct AccountId {
    pub hi: u128,
    pub lo: u128,
}

/// Strict byte-lexicographic order on addresses: the total, deterministic
/// order that canonical pool identity is built on.
pub open spec fn id_lt(a: AccountId, b: AccountId) -> bool {
    a.hi < b.hi || (a.hi == b.hi && a.lo < b.lo)
}

impl AccountId {
    /// Strict byte-lexicographic comparison.
    pub fn lt(&self, other: &AccountId) -> (r: bool)
        ensures
            r == id_lt(*self, *other),
    {
        self.hi < other.hi || (self.hi == other.hi && self.lo < other.lo)
    }
}

/// The order is total: two distinct addresses compare strictly one way.
pub proof fn lemma_id_order_total(a: AccountId, b: AccountId)
    ensures
        a != b ==> (id_lt(a, b) <==> !id_lt(b, a)),
        id_lt(a, b) ==> a != b,
{
}

/// What the core reads of an asset's mint account: its address and the
/// declared number of decimals that every transfer of the asset is checked
/// against.
#[derive(Clone, Copy, Debug, PartialEq, Eq, Structural)]
pub struct MintInfo {
    pub address: AccountId,
    pub decimals: u8,
}

/// What the core reads of a token account: its address, the asset it holds,
/// the authority allowed to move funds out of it, and its current balance.
/// For a pool vault the balance is that vault's reserve; it must be read
/// fresh from the ledger immediately before any pricing calculation.
#[derive(Clone, Copy, Debug, PartialEq, Eq, Structural)]
pub struct TokenAccountInfo {
    pub address: AccountId,
    pub mint: AccountId,
    pub owner: AccountId,
    pub amount: u64,
}

} // verus!
