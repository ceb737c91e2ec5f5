use amm_pool::errors::SwapError;
use amm_pool::events::{LiquidityAddedEvent, SwapEvent, TransactionEvent};
use amm_pool::ids::{AccountId, MintInfo, TokenAccountInfo};
use amm_pool::liquidity::{add_liquidity, validate_add_liquidity_accounts, AddLiquidity};
use amm_pool::pool::{InitializePool, PoolAccount, PoolRegistry};
use amm_pool::pricing::compute_swap;
use amm_pool::swap::{swap, validate_swap_accounts, Swap};
use amm_pool::transfer::{
    process_transaction, validate_process_transaction_accounts, ProcessTransaction,
    TransferAuthority, TransferAuthorization,
};

fn id(n: u128) -> AccountId {
    AccountId { hi: 0, lo: n }
}

fn vault(address: u128, mint: u128, owner: u128, amount: u64) -> TokenAccountInfo {
    TokenAccountInfo { address: id(address), mint: id(mint), owner: id(owner), amount }
}

// A pool over mints 1 (low) and 2 (high), vaults 11 and 12, authority 9,
// record address 100, bump 255.
fn pool_account() -> PoolAccount {
    PoolAccount {
        address: id(100),
        data: amm_pool::pool::LiquidityPool {
            token_a_mint: id(1),
            token_b_mint: id(2),
            token_a_vault: id(11),
            token_b_vault: id(12),
            bump: 255,
        },
    }
}

fn swap_accounts(reserve_a: u64, reserve_b: u64) -> Swap {
    Swap {
        source_mint: MintInfo { address: id(1), decimals: 6 },
        destination_mint: MintInfo { address: id(2), decimals: 9 },
        pool: pool_account(),
        pool_authority: id(9),
        user_source_token_account: vault(21, 1, 30, 500_000),
        user_destination_token_account: vault(22, 2, 30, 0),
        token_a_vault: vault(11, 1, 9, reserve_a),
        token_b_vault: vault(12, 2, 9, reserve_b),
        user_authority: id(30),
    }
}

#[test]
fn swap_scenario_exact() {
    // Reserves a million each; ten thousand in, k = 10^12,
    // new in-reserve 1_010_000, new out-reserve 990_099 (truncated),
    // so 9_901 comes out.
    assert_eq!(compute_swap(1_000_000, 1_000_000, 10_000, 0), Ok(9_901));
}

#[test]
fn swap_full_operation() {
    let a = swap_accounts(1_000_000, 1_000_000);
    assert_eq!(validate_swap_accounts(&a), Ok(()));
    let outcome = swap(&a, 10_000, 0).unwrap();
    assert_eq!(outcome.amount_out, 9_901);
    assert_eq!(
        outcome.transfer_in,
        TransferAuthorization {
            from: id(21),
            mint: id(1),
            to: id(11),
            authority: TransferAuthority::User(id(30)),
            amount: 10_000,
            decimals: 6,
        }
    );
    assert_eq!(
        outcome.transfer_out,
        TransferAuthorization {
            from: id(12),
            mint: id(2),
            to: id(22),
            authority: TransferAuthority::PoolDerived {
                asset_low: id(1),
                asset_high: id(2),
                bump: 255,
            },
            amount: 9_901,
            decimals: 9,
        }
    );
    assert_eq!(
        outcome.event,
        SwapEvent {
            pool: id(100),
            user: id(30),
            amount_in: 10_000,
            amount_out: 9_901,
            source_mint: id(1),
            destination_mint: id(2),
        }
    );
}

#[test]
fn swap_reverse_direction() {
    // Funding account holds the higher asset: vault roles swap.
    let mut a = swap_accounts(1_000_000, 500_000);
    a.source_mint = MintInfo { address: id(2), decimals: 9 };
    a.destination_mint = MintInfo { address: id(1), decimals: 6 };
    a.user_source_token_account = vault(22, 2, 30, 500_000);
    a.user_destination_token_account = vault(21, 1, 30, 0);
    let outcome = swap(&a, 10_000, 0).unwrap();
    // reserve_in = 500_000 (vault b), reserve_out = 1_000_000 (vault a):
    // k = 5*10^11, new in 510_000, new out 980_392, out 19_608.
    assert_eq!(outcome.amount_out, 19_608);
    assert_eq!(outcome.transfer_in.to, id(12));
    assert_eq!(outcome.transfer_out.from, id(11));
}

#[test]
fn swap_zero_amount_fails() {
    assert_eq!(compute_swap(1_000, 1_000, 0, 0), Err(SwapError::ZeroAmount));
    let a = swap_accounts(1_000, 1_000);
    assert_eq!(swap(&a, 0, 0), Err(SwapError::ZeroAmount));
}

#[test]
fn swap_empty_pool_fails() {
    assert_eq!(compute_swap(0, 1_000, 5, 0), Err(SwapError::PoolIsEmpty));
    assert_eq!(compute_swap(1_000, 0, 5, 0), Err(SwapError::PoolIsEmpty));
    // An empty pool is reported before a zero amount.
    assert_eq!(compute_swap(0, 0, 0, 0), Err(SwapError::PoolIsEmpty));
    let a = swap_accounts(0, 1_000);
    assert_eq!(swap(&a, 5, 0), Err(SwapError::PoolIsEmpty));
}

#[test]
fn swap_slippage_guard() {
    // 9_901 would come out; asking for at least 9_902 fails, 9_901 passes.
    assert_eq!(compute_swap(1_000_000, 1_000_000, 10_000, 9_902), Err(SwapError::SlippageExceeded));
    assert_eq!(compute_swap(1_000_000, 1_000_000, 10_000, 9_901), Ok(9_901));
}

#[test]
fn swap_price_impact_guard() {
    // Out of (1000, 1000), 200 in pays out 167: 1670 bps, over the bound.
    assert_eq!(compute_swap(1_000, 1_000, 200, 0), Err(SwapError::ExcessivePriceImpact));
    let a = swap_accounts(1_000, 1_000);
    assert_eq!(swap(&a, 200, 0), Err(SwapError::ExcessivePriceImpact));
    // Exactly 1000 bps is allowed: 1111 into (10_000, 10_000) pays 1_000.
    assert_eq!(compute_swap(10_000, 10_000, 1_111, 0), Ok(1_000));
}

#[test]
fn swap_unknown_source_mint_fails() {
    let mut a = swap_accounts(1_000, 1_000);
    a.user_source_token_account.mint = id(7);
    assert_eq!(swap(&a, 10, 0), Err(SwapError::InvalidMint));
}

#[test]
fn swap_destination_mint_mismatch_fails() {
    let mut a = swap_accounts(1_000, 1_000);
    a.user_destination_token_account.mint = id(7);
    assert_eq!(swap(&a, 10, 0), Err(SwapError::InvalidDestinationMint));
}

#[test]
fn swap_account_validation_errors() {
    let good = swap_accounts(1_000, 1_000);
    assert_eq!(validate_swap_accounts(&good), Ok(()));

    let mut a = good;
    a.token_a_vault.address = id(77);
    assert_eq!(validate_swap_accounts(&a), Err(SwapError::InvalidVault));

    let mut a = good;
    a.source_mint.address = id(7);
    assert_eq!(validate_swap_accounts(&a), Err(SwapError::InvalidMint));

    let mut a = good;
    a.user_source_token_account.owner = id(31);
    assert_eq!(validate_swap_accounts(&a), Err(SwapError::InvalidOwner));

    let mut a = good;
    a.token_b_vault.owner = id(8);
    assert_eq!(validate_swap_accounts(&a), Err(SwapError::InvalidVault));
}

fn init_accounts(mint_a: u128, mint_b: u128) -> InitializePool {
    InitializePool {
        token_a_mint: MintInfo { address: id(mint_a), decimals: 6 },
        token_b_mint: MintInfo { address: id(mint_b), decimals: 9 },
        pool_address: id(100),
        pool_authority: id(9),
        token_a_vault: vault(11, mint_a, 9, 0),
        token_b_vault: vault(12, mint_b, 9, 0),
        initializer: id(30),
    }
}

#[test]
fn initialize_orders_pair_canonically() {
    // Supplied higher-first: the record still comes out ordered, each
    // vault bound to its own mint.
    let mut registry = PoolRegistry::new();
    assert_eq!(registry.initialize_pool(&init_accounts(2, 1), 254), Ok(()));
    let record = registry.pools[0].data;
    assert_eq!(record.token_a_mint, id(1));
    assert_eq!(record.token_b_mint, id(2));
    assert_eq!(record.token_a_vault, id(12));
    assert_eq!(record.token_b_vault, id(11));
    assert_eq!(record.bump, 254);
    assert_eq!(registry.pools[0].address, id(100));
}

#[test]
fn initialize_orders_by_high_half_first() {
    // The high half of the address dominates the byte order.
    let mut registry = PoolRegistry::new();
    let mut accounts = init_accounts(5, 5);
    accounts.token_a_mint.address = AccountId { hi: 1, lo: 0 };
    accounts.token_b_mint.address = AccountId { hi: 0, lo: 9 };
    accounts.token_a_vault.mint = accounts.token_a_mint.address;
    accounts.token_b_vault.mint = accounts.token_b_mint.address;
    assert_eq!(registry.initialize_pool(&accounts, 253), Ok(()));
    let record = registry.pools[0].data;
    assert_eq!(record.token_a_mint, AccountId { hi: 0, lo: 9 });
    assert_eq!(record.token_b_mint, AccountId { hi: 1, lo: 0 });
}

#[test]
fn initialize_same_mint_fails() {
    let mut registry = PoolRegistry::new();
    assert_eq!(registry.initialize_pool(&init_accounts(3, 3), 254), Err(SwapError::InvalidMint));
    assert_eq!(registry.pools.len(), 0);
}

#[test]
fn reinitialize_fails_either_order() {
    let mut registry = PoolRegistry::new();
    assert_eq!(registry.initialize_pool(&init_accounts(1, 2), 254), Ok(()));
    let before = registry.pools[0];

    // The same pair again, both orders: refused, record untouched.
    assert_eq!(
        registry.initialize_pool(&init_accounts(1, 2), 7),
        Err(SwapError::AlreadyInitialized)
    );
    assert_eq!(
        registry.initialize_pool(&init_accounts(2, 1), 7),
        Err(SwapError::AlreadyInitialized)
    );
    assert_eq!(registry.pools.len(), 1);
    assert_eq!(registry.pools[0], before);

    // A different pair is a different pool.
    assert_eq!(registry.initialize_pool(&init_accounts(1, 3), 252), Ok(()));
    assert_eq!(registry.pools.len(), 2);
}

#[test]
fn find_pool_either_order() {
    let mut registry = PoolRegistry::new();
    assert_eq!(registry.initialize_pool(&init_accounts(1, 2), 254), Ok(()));
    let record = registry.pools[0];
    assert_eq!(registry.find_pool(&id(1), &id(2)), Some(record));
    assert_eq!(registry.find_pool(&id(2), &id(1)), Some(record));
    assert_eq!(registry.find_pool(&id(1), &id(3)), None);
}

fn liquidity_accounts(reserve_a: u64, reserve_b: u64) -> AddLiquidity {
    AddLiquidity {
        pool: pool_account(),
        pool_authority: id(9),
        token_a_mint: MintInfo { address: id(1), decimals: 6 },
        token_b_mint: MintInfo { address: id(2), decimals: 9 },
        user_token_a_account: vault(21, 1, 30, 1_000_000),
        user_token_b_account: vault(22, 2, 30, 1_000_000),
        token_a_vault: vault(11, 1, 9, reserve_a),
        token_b_vault: vault(12, 2, 9, reserve_b),
        user_authority: id(30),
    }
}

#[test]
fn add_liquidity_scenario_disproportionate() {
    // Reserves (100, 100); depositing (50, 40) lands at (150, 140), the
    // proportional higher amount is 50 * 140 / 150 = 46, the band is
    // [45, 46], and 40 falls below it.
    let a = liquidity_accounts(100, 100);
    assert_eq!(add_liquidity(&a, 50, 40), Err(SwapError::DisproportionateLiquidity));
}

#[test]
fn add_liquidity_proportionate_accepted() {
    let a = liquidity_accounts(1_000, 1_000);
    let outcome = add_liquidity(&a, 100, 100).unwrap();
    assert_eq!(outcome.transfer_a.from, id(21));
    assert_eq!(outcome.transfer_a.to, id(11));
    assert_eq!(outcome.transfer_a.amount, 100);
    assert_eq!(outcome.transfer_a.decimals, 6);
    assert_eq!(outcome.transfer_a.authority, TransferAuthority::User(id(30)));
    assert_eq!(outcome.transfer_b.from, id(22));
    assert_eq!(outcome.transfer_b.to, id(12));
    assert_eq!(outcome.transfer_b.amount, 100);
    assert_eq!(outcome.transfer_b.decimals, 9);
    assert_eq!(
        outcome.event,
        LiquidityAddedEvent { pool: id(100), user: id(30), amount_a: 100, amount_b: 100 }
    );
}

#[test]
fn add_liquidity_band_edges() {
    // Reserves (1000, 1000), 100 of the lower asset. 99 on the higher
    // side lands within the one per cent band; 102 falls above it.
    let a = liquidity_accounts(1_000, 1_000);
    assert!(add_liquidity(&a, 100, 99).is_ok());
    assert_eq!(add_liquidity(&a, 100, 102), Err(SwapError::DisproportionateLiquidity));
}

#[test]
fn add_liquidity_into_empty_pool() {
    // First deposit: post-deposit reserves are the amounts themselves, so
    // any positive pair within the band of its own ratio is accepted.
    let a = liquidity_accounts(0, 0);
    assert!(add_liquidity(&a, 5_000, 5_000).is_ok());
}

#[test]
fn add_liquidity_zero_amount_fails() {
    let a = liquidity_accounts(100, 100);
    assert_eq!(add_liquidity(&a, 0, 40), Err(SwapError::ZeroAmount));
    assert_eq!(add_liquidity(&a, 50, 0), Err(SwapError::ZeroAmount));
    assert_eq!(add_liquidity(&a, 0, 0), Err(SwapError::ZeroAmount));
}

#[test]
fn add_liquidity_account_validation_errors() {
    let good = liquidity_accounts(100, 100);
    assert_eq!(validate_add_liquidity_accounts(&good), Ok(()));

    let mut a = good;
    a.token_b_vault.address = id(77);
    assert_eq!(validate_add_liquidity_accounts(&a), Err(SwapError::InvalidVault));

    let mut a = good;
    a.token_a_mint.address = id(7);
    assert_eq!(validate_add_liquidity_accounts(&a), Err(SwapError::InvalidMint));

    let mut a = good;
    a.user_token_b_account.owner = id(31);
    assert_eq!(validate_add_liquidity_accounts(&a), Err(SwapError::InvalidOwner));

    let mut a = good;
    a.token_a_vault.owner = id(8);
    assert_eq!(validate_add_liquidity_accounts(&a), Err(SwapError::InvalidVault));
}

fn transaction_accounts() -> ProcessTransaction {
    ProcessTransaction {
        sender_token_account_mint: MintInfo { address: id(1), decimals: 6 },
        sender_token_account: vault(21, 1, 30, 1_000),
        receiver_token_account: vault(23, 1, 40, 0),
        authority: id(30),
    }
}

#[test]
fn process_transaction_builds_transfer_and_event() {
    let a = transaction_accounts();
    assert_eq!(validate_process_transaction_accounts(&a), Ok(()));
    let (transfer, event) = process_transaction(&a, 250);
    assert_eq!(
        transfer,
        TransferAuthorization {
            from: id(21),
            mint: id(1),
            to: id(23),
            authority: TransferAuthority::User(id(30)),
            amount: 250,
            decimals: 6,
        }
    );
    assert_eq!(event, TransactionEvent { from: id(30), to: id(23), amount: 250 });
}

#[test]
fn process_transaction_validation_errors() {
    let mut a = transaction_accounts();
    a.sender_token_account.owner = id(31);
    assert_eq!(validate_process_transaction_accounts(&a), Err(SwapError::InvalidOwner));

    let mut a = transaction_accounts();
    a.receiver_token_account.mint = id(2);
    assert_eq!(validate_process_transaction_accounts(&a), Err(SwapError::InvalidMint));
}
