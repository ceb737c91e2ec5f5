//! Pool identity: canonical ordering of the asset pair, the persisted
//! vault bindings and authority bump, and one-pool-per-pair creation.

use crate::errors::SwapError;
use crate::ids::{id_lt, AccountId, MintInfo, TokenAccountInfo};
use vstd::prelude::*;

verus! {

/// The persistent record of a trading pair. `token_a_mint` is the lower of
/// the two asset addresses under the byte-lexicographic order and
/// `token_b_mint` the higher; each vault is permanently bound to the asset
/// at its position. The record is created once and never mutated.
#[derive(Clone, Copy, Debug, PartialEq, Eq, Structural)]
pub struct LiquidityPool {
    /// The lower asset mint of the pair.
    pub token_a_mint: AccountId,
    /// The higher asset mint of the pair.
    pub token_b_mint: AccountId,
    /// The vault holding the reserve of `token_a_mint`.
    pub token_a_vault: AccountId,
    /// The vault holding the reserve of `token_b_mint`.
    pub token_b_vault: AccountId,
    /// The stored bump value that, with the fixed pool label and the two
    /// mints, re-derives the pool's signing authority.
    pub bump: u8,
}

/// The lifetime invariant of every pool record: the pair is strictly
/// ordered, so no pool exists for a duplicated asset.
pub open spec fn pool_well_formed(p: LiquidityPool) -> bool {
    id_lt(p.token_a_mint, p.token_b_mint)
}

/// A pool record together with the ledger address it lives at.
#[derive(Clone, Copy, Debug, PartialEq, Eq, Structural)]
pub struct PoolAccount {
    pub address: AccountId,
    pub data: LiquidityPool,
}

/// The record that initialization builds: the two supplied mints in
/// canonical order, each vault travelling with its mint, whatever order
/// the caller supplied them in.
pub open spec fn canonical_pool(
    mint_x: AccountId,
    mint_y: AccountId,
    vault_x: AccountId,
    vault_y: AccountId,
    bump: u8,
) -> LiquidityPool {
    if id_lt(mint_x, mint_y) {
        LiquidityPool {
            token_a_mint: mint_x,
            token_b_mint: mint_y,
            token_a_vault: vault_x,
            token_b_vault: vault_y,
            bump,
        }
    } else {
        LiquidityPool {
            token_a_mint: mint_y,
            token_b_mint: mint_x,
            token_a_vault: vault_y,
            token_b_vault: vault_x,
            bump,
        }
    }
}

/// Canonical identity is a function of the unordered pair: supplying the
/// two assets (with their vaults) in the other order builds the same
/// record.
pub proof fn lemma_canonical_pool_order_independent(
    mint_x: AccountId,
    mint_y: AccountId,
    vault_x: AccountId,
    vault_y: AccountId,
    bump: u8,
)
    requires
        mint_x != mint_y,
    ensures
        canonical_pool(mint_x, mint_y, vault_x, vault_y, bump) == canonical_pool(
            mint_y,
            mint_x,
            vault_y,
            vault_x,
            bump,
        ),
        pool_well_formed(canonical_pool(mint_x, mint_y, vault_x, vault_y, bump)),
{
    crate::ids::lemma_id_order_total(mint_x, mint_y);
}

/// The accounts handed to pool initialization. The pool account and both
/// vaults are freshly created by the account-creation collaborator: the
/// vaults are empty, bound each to its supplied mint, and owned by the
/// pool's derived authority.
#[derive(Clone, Copy, Debug, PartialEq, Eq, Structural)]
pub struct InitializePool {
    /// The first supplied asset mint.
    pub token_a_mint: MintInfo,
    /// The second supplied asset mint.
    pub token_b_mint: MintInfo,
    /// The address of the freshly created pool record.
    pub pool_address: AccountId,
    /// The pool's derived signing authority.
    pub pool_authority: AccountId,
    /// The freshly created vault for the first supplied mint.
    pub token_a_vault: TokenAccountInfo,
    /// The freshly created vault for the second supplied mint.
    pub token_b_vault: TokenAccountInfo,
    /// The caller funding the creation.
    pub initializer: AccountId,
}

/// The entry that initialization appends for these accounts.
pub open spec fn spec_initialized_entry(a: InitializePool, bump: u8) -> PoolAccount {
    PoolAccount {
        address: a.pool_address,
        data: canonical_pool(
            a.token_a_mint.address,
            a.token_b_mint.address,
            a.token_a_vault.address,
            a.token_b_vault.address,
            bump,
        ),
    }
}

/// All pool records that exist, one per unordered asset pair. This is the
/// addressing discipline of the account-creation collaborator made
/// explicit: creation for a pair that already has a record fails rather
/// than overwrite.
pub struct PoolRegistry {
    pub pools: Vec<PoolAccount>,
}

impl PoolRegistry {
    /// Every record is well formed and no two records share a canonical
    /// pair.
    pub open spec fn wf(self) -> bool {
        &&& forall|i: int|
            0 <= i < self.pools@.len() ==> pool_well_formed(#[trigger] self.pools@[i].data)
        &&& forall|i: int, j: int|
            0 <= i < j < self.pools@.len() ==> !(self.pools@[i].data.token_a_mint
                == self.pools@[j].data.token_a_mint && self.pools@[i].data.token_b_mint
                == self.pools@[j].data.token_b_mint)
    }

    /// A record with exactly this ordered pair exists.
    pub open spec fn spec_has_pair(self, lo: AccountId, hi: AccountId) -> bool {
        exists|i: int|
            0 <= i < self.pools@.len() && (#[trigger] self.pools@[i]).data.token_a_mint == lo
                && self.pools@[i].data.token_b_mint == hi
    }

    /// A record for this unordered pair exists, whichever order the two
    /// assets are named in.
    pub open spec fn spec_has_pool(self, mint_x: AccountId, mint_y: AccountId) -> bool {
        if id_lt(mint_x, mint_y) {
            self.spec_has_pair(mint_x, mint_y)
        } else {
            self.spec_has_pair(mint_y, mint_x)
        }
    }

    /// Pool lookup does not depend on the order the pair is named in.
    pub proof fn lemma_has_pool_order_independent(self, mint_x: AccountId, mint_y: AccountId)
        ensures
            self.spec_has_pool(mint_x, mint_y) == self.spec_has_pool(mint_y, mint_x),
    {
    }

    /// Looks the pair's pool up, naming the two assets in either order:
    /// the match is against the canonical ordering, exactly as creation
    /// applied it.
    pub fn find_pool(&self, mint_x: &AccountId, mint_y: &AccountId) -> (r: Option<PoolAccount>)
        ensures
            r is Some <==> self.spec_has_pool(*mint_x, *mint_y),
            r matches Some(p) ==> self.pools@.contains(p) && p.data.token_a_mint == (
            if id_lt(*mint_x, *mint_y) {
                *mint_x
            } else {
                *mint_y
            }) && p.data.token_b_mint == (
            if id_lt(*mint_x, *mint_y) {
                *mint_y
            } else {
                *mint_x
            }),
    {
        let (lo_mint, hi_mint) = if mint_x.lt(mint_y) {
            (*mint_x, *mint_y)
        } else {
            (*mint_y, *mint_x)
        };
        let n = self.pools.len();
        let mut i: usize = 0;
        while i < n
            invariant
                n == self.pools@.len(),
                0 <= i <= n,
                lo_mint == (if id_lt(*mint_x, *mint_y) {
                    *mint_x
                } else {
                    *mint_y
                }),
                hi_mint == (if id_lt(*mint_x, *mint_y) {
                    *mint_y
                } else {
                    *mint_x
                }),
                forall|j: int|
                    0 <= j < i ==> !((#[trigger] self.pools@[j]).data.token_a_mint == lo_mint
                        && self.pools@[j].data.token_b_mint == hi_mint),
            decreases n - i,
        {
            let entry = &self.pools[i];
            if entry.data.token_a_mint == lo_mint && entry.data.token_b_mint == hi_mint {
                return Some(*entry);
            }
            i = i + 1;
        }
        None
    }

    /// An empty registry: no pool exists yet.
    pub fn new() -> (r: PoolRegistry)
        ensures
            r.wf(),
            r.pools@.len() == 0,
    {
        PoolRegistry { pools: Vec::new() }
    }

    /// Creates the pool record for a pair of assets. The two supplied
    /// mints are put in canonical order and each supplied vault is bound
    /// to its own mint, whatever order the caller passed them in; the bump
    /// handed over by the account-creation collaborator is stored as-is.
    /// Creation fails with `InvalidMint` when the two assets are the same
    /// (no pool may exist for a duplicated asset) and with
    /// `AlreadyInitialized` when a record for the unordered pair already
    /// exists; in either case the registry is unchanged, so an existing
    /// record is never altered. On success exactly the canonical record is
    /// appended.
    pub fn initialize_pool(&mut self, accounts: &InitializePool, bump: u8) -> (r: Result<
        (),
        SwapError,
    >)
        requires
            old(self).wf(),
            accounts.token_a_vault.mint == accounts.token_a_mint.address,
            accounts.token_b_vault.mint == accounts.token_b_mint.address,
            accounts.token_a_vault.owner == accounts.pool_authority,
            accounts.token_b_vault.owner == accounts.pool_authority,
            accounts.token_a_vault.amount == 0,
            accounts.token_b_vault.amount == 0,
        ensures
            final(self).wf(),
            accounts.token_a_mint.address == accounts.token_b_mint.address ==> r == Err::<
                (),
                SwapError,
            >(SwapError::InvalidMint) && final(self).pools@ == old(self).pools@,
            accounts.token_a_mint.address != accounts.token_b_mint.address && old(
                self,
            ).spec_has_pool(accounts.token_a_mint.address, accounts.token_b_mint.address) ==> r
                == Err::<(), SwapError>(SwapError::AlreadyInitialized) && final(self).pools@ == old(
                self,
            ).pools@,
            accounts.token_a_mint.address != accounts.token_b_mint.address && !old(
                self,
            ).spec_has_pool(accounts.token_a_mint.address, accounts.token_b_mint.address) ==> r
                == Ok::<(), SwapError>(()) && final(self).pools@ == old(self).pools@.push(
                spec_initialized_entry(*accounts, bump),
            ) && pool_well_formed(spec_initialized_entry(*accounts, bump).data),
    {
        if accounts.token_a_mint.address == accounts.token_b_mint.address {
            return Err(SwapError::InvalidMint);
        }
        let (lo_mint, hi_mint, lo_vault, hi_vault) = if accounts.token_a_mint.address.lt(
            &accounts.token_b_mint.address,
        ) {
            (
                accounts.token_a_mint.address,
                accounts.token_b_mint.address,
                accounts.token_a_vault.address,
                accounts.token_b_vault.address,
            )
        } else {
            (
                accounts.token_b_mint.address,
                accounts.token_a_mint.address,
                accounts.token_b_vault.address,
                accounts.token_a_vault.address,
            )
        };
        let n = self.pools.len();
        let mut i: usize = 0;
        while i < n
            invariant
                old(self).wf(),
                self.pools@ == old(self).pools@,
                n == self.pools@.len(),
                0 <= i <= n,
                accounts.token_a_mint.address != accounts.token_b_mint.address,
                id_lt(lo_mint, hi_mint),
                spec_initialized_entry(*accounts, bump).data == (LiquidityPool {
                    token_a_mint: lo_mint,
                    token_b_mint: hi_mint,
                    token_a_vault: lo_vault,
                    token_b_vault: hi_vault,
                    bump,
                }),
                old(self).spec_has_pool(accounts.token_a_mint.address, accounts.token_b_mint.address)
                    == old(self).spec_has_pair(lo_mint, hi_mint),
                forall|j: int|
                    0 <= j < i ==> !((#[trigger] self.pools@[j]).data.token_a_mint == lo_mint
                        && self.pools@[j].data.token_b_mint == hi_mint),
            decreases n - i,
        {
            let entry = &self.pools[i];
            if entry.data.token_a_mint == lo_mint && entry.data.token_b_mint == hi_mint {
                return Err(SwapError::AlreadyInitialized);
            }
            i = i + 1;
        }
        let record = LiquidityPool {
            token_a_mint: lo_mint,
            token_b_mint: hi_mint,
            token_a_vault: lo_vault,
            token_b_vault: hi_vault,
            bump,
        };
        self.pools.push(PoolAccount { address: accounts.pool_address, data: record });
        Ok(())
    }
}

} // verus!
