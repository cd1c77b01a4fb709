use solana_dex_demo::amm::PoolInfo;
use solana_dex_demo::anchor_dex::error::DexError;
use solana_dex_demo::anchor_dex::state::{Pool, POOL_SPACE};
use solana_dex_demo::anchor_dex::{
    add_liquidity, add_liquidity_settle, get_pool_info, initialize_pool, remove_liquidity,
    remove_liquidity_settle, swap, swap_settle, PoolKeys, SwapKeys,
};
use solana_dex_demo::anchor_dex::math;

fn keys() -> PoolKeys {
    PoolKeys {
        token_a_mint: [1; 32],
        token_b_mint: [2; 32],
        token_a_vault: [3; 32],
        token_b_vault: [4; 32],
        lp_mint: [5; 32],
    }
}

fn swap_keys(a_to_b: bool) -> SwapKeys {
    let (source, dest) = if a_to_b { ([3; 32], [4; 32]) } else { ([4; 32], [3; 32]) };
    SwapKeys { token_a_mint: [1; 32], token_b_mint: [2; 32], pool_source_vault: source, pool_dest_vault: dest }
}

#[test]
fn anchor_initialize_pool() {
    let pool = initialize_pool(&keys(), 3, 1000, 253).unwrap();
    assert_eq!((pool.reserve_a, pool.reserve_b, pool.lp_supply), (0, 0, 0));
    assert_eq!((pool.fee_numerator, pool.fee_denominator, pool.bump), (3, 1000, 253));
    assert_eq!(pool.token_b_vault, [4; 32]);
    assert_eq!(initialize_pool(&keys(), 1000, 1000, 253), Err(DexError::InvalidFee));
    assert_eq!(initialize_pool(&keys(), 0, 0, 253), Err(DexError::InvalidFee));
    assert_eq!(POOL_SPACE, 209);
}

#[test]
fn anchor_lifecycle() {
    let pool: Pool = initialize_pool(&keys(), 3, 1000, 253).unwrap();
    assert_eq!(add_liquidity(&pool, &keys(), 0, 10, 0), Err(DexError::ZeroAmount));
    let lp = add_liquidity(&pool, &keys(), 1000, 1000, 1000).unwrap();
    assert_eq!(lp, 1000);
    let pool = add_liquidity_settle(&pool, 1000, 1000, lp).unwrap();
    assert_eq!(add_liquidity(&pool, &keys(), 50, 200, 51), Err(DexError::SlippageExceeded));
    assert_eq!(swap(&pool, &swap_keys(true), 0, 0, true), Err(DexError::ZeroAmount));
    let out = swap(&pool, &swap_keys(true), 100, 0, true).unwrap();
    assert_eq!(out, 90);
    let pool = swap_settle(&pool, 100, out, true).unwrap();
    assert_eq!((pool.reserve_a, pool.reserve_b), (1100, 910));
    assert_eq!(remove_liquidity(&pool, &keys(), 0, 0, 0), Err(DexError::ZeroAmount));
    assert_eq!(remove_liquidity(&pool, &keys(), 100, 111, 0), Err(DexError::SlippageExceeded));
    let (a, b) = remove_liquidity(&pool, &keys(), 100, 110, 91).unwrap();
    assert_eq!((a, b), (110, 91));
    let pool = remove_liquidity_settle(&pool, 100, a, b).unwrap();
    assert_eq!((pool.reserve_a, pool.reserve_b, pool.lp_supply), (990, 819, 900));
    assert_eq!(remove_liquidity_settle(&pool, 901, 0, 0), Err(DexError::Overflow));
    assert_eq!(swap_settle(&pool, u64::MAX, 0, true), Err(DexError::Overflow));
    assert_eq!(
        get_pool_info(&pool),
        PoolInfo {
            price_a_to_b_e6: Some(827_272),
            k: Some(810_810),
            a_per_lp_e6: Some(1_100_000),
            b_per_lp_e6: Some(910_000),
        }
    );
}

#[test]
fn anchor_refusals_of_the_pool_rules() {
    let empty = initialize_pool(&keys(), 3, 1000, 253).unwrap();
    assert_eq!(swap(&empty, &swap_keys(false), 100, 0, false), Err(DexError::InsufficientLiquidity));
    assert_eq!(remove_liquidity(&empty, &keys(), 10, 0, 0), Err(DexError::InsufficientLiquidity));
    let mut broken = empty;
    broken.lp_supply = 10;
    broken.reserve_b = 10;
    assert_eq!(add_liquidity(&broken, &keys(), 10, 10, 0), Err(DexError::Overflow));
}

#[test]
fn anchor_error_codes_and_messages() {
    assert_eq!(DexError::InvalidFee.code(), 6000);
    assert_eq!(DexError::ZeroAmount.code(), 6001);
    assert_eq!(DexError::InsufficientLiquidity.code(), 6002);
    assert_eq!(DexError::SlippageExceeded.code(), 6003);
    assert_eq!(DexError::Overflow.code(), 6004);
    assert_eq!(DexError::InvalidVaultMint.code(), 6005);
    assert_eq!(DexError::ZeroAmount.message(), "Amount must be greater than zero");
    assert_eq!(DexError::SlippageExceeded.message(), "Slippage tolerance exceeded");
}

#[test]
fn anchor_math_is_the_shared_math() {
    assert_eq!(math::swap_output(100, 1000, 1000, 3, 1000), Some(90));
    assert_eq!(math::calculate_lp_tokens(400, 900, 0, 0, 0), Some(600));
    assert_eq!(math::calculate_removal_amounts(100, 500, 800, 1000), Some((50, 80)));
    assert_eq!(math::integer_sqrt(360_000), 600);
}

#[test]
fn anchor_refuses_accounts_the_pool_does_not_record() {
    let pool = initialize_pool(&keys(), 3, 1000, 253).unwrap();
    let lp = add_liquidity(&pool, &keys(), 1000, 1000, 0).unwrap();
    let pool = add_liquidity_settle(&pool, 1000, 1000, lp).unwrap();
    // the user's own account named as the vault that pays out
    let mut own = swap_keys(true);
    own.pool_dest_vault = [42; 32];
    assert_eq!(swap(&pool, &own, 100, 0, true), Err(DexError::InvalidVaultMint));
    // another mint
    let mut other_mint = swap_keys(true);
    other_mint.token_b_mint = [7; 32];
    assert_eq!(swap(&pool, &other_mint, 100, 0, true), Err(DexError::InvalidVaultMint));
    // the vaults of the other direction
    assert_eq!(swap(&pool, &swap_keys(false), 100, 0, true), Err(DexError::InvalidVaultMint));
    assert_eq!(swap(&pool, &swap_keys(false), 100, 0, false), Ok(90));
    // deposit and withdrawal with a vault that is not the pool's
    let mut wrong = keys();
    wrong.token_a_vault = [9; 32];
    assert_eq!(add_liquidity(&pool, &wrong, 10, 10, 0), Err(DexError::InvalidVaultMint));
    assert_eq!(remove_liquidity(&pool, &wrong, 10, 0, 0), Err(DexError::InvalidVaultMint));
    // the account check comes before the amount check
    assert_eq!(swap(&pool, &own, 0, 0, true), Err(DexError::InvalidVaultMint));
}
