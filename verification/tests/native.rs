use solana_dex_demo::error::DexError;
use solana_dex_demo::processor::{
    AddLiquidityAccounts, PoolKeys, ProcessError, Processor, RemoveLiquidityAccounts, SwapAccounts,
};
use solana_dex_demo::state::{Pool, POOL_SIZE};
use solana_dex_demo::amm::PoolInfo;
use solana_dex_demo::DexInstruction;
use solana_program::pubkey::Pubkey;

fn key(byte: u8) -> [u8; 32] {
    [byte; 32]
}

fn sample_pool() -> Pool {
    Pool {
        is_initialized: true,
        token_a_mint: key(1),
        token_b_mint: key(2),
        token_a_vault: key(3),
        token_b_vault: key(4),
        lp_mint: key(5),
        reserve_a: 1_000,
        reserve_b: 1_000,
        lp_supply: 1_000,
        fee_numerator: 3,
        fee_denominator: 1_000,
        bump: 254,
    }
}

fn add_accounts(pool_data: &[u8]) -> Option<AddLiquidityAccounts<'_>> {
    Some(AddLiquidityAccounts { pool_data, token_a_vault: key(3), token_b_vault: key(4), lp_mint: key(5) })
}

fn remove_accounts(pool_data: &[u8]) -> Option<RemoveLiquidityAccounts<'_>> {
    Some(RemoveLiquidityAccounts { pool_data, lp_mint: key(5), token_a_vault: key(3), token_b_vault: key(4) })
}

fn swap_accounts(pool_data: &[u8], a_to_b: bool) -> Option<SwapAccounts<'_>> {
    if a_to_b {
        Some(SwapAccounts { pool_data, pool_source_vault: key(3), pool_dest_vault: key(4) })
    } else {
        Some(SwapAccounts { pool_data, pool_source_vault: key(4), pool_dest_vault: key(3) })
    }
}

fn keys_with_authority(pool_account: [u8; 32], pool_authority: [u8; 32]) -> PoolKeys {
    PoolKeys {
        pool_account,
        token_a_mint: key(1),
        token_b_mint: key(2),
        token_a_vault: key(3),
        token_b_vault: key(4),
        lp_mint: key(5),
        pool_authority,
    }
}

#[test]
fn pool_layout_matches_borsh() {
    let pool = sample_pool();
    let bytes = pool.pack();
    assert_eq!(bytes.len(), POOL_SIZE);
    let expected = borsh::to_vec(&(
        true,
        key(1),
        key(2),
        key(3),
        key(4),
        key(5),
        1_000u64,
        1_000u64,
        1_000u64,
        3u64,
        1_000u64,
        254u8,
    ))
    .unwrap();
    assert_eq!(bytes, expected);
    assert_eq!(Pool::unpack(&bytes), Some(pool));
}

#[test]
fn pool_unpack_refuses_other_bytes() {
    let mut bytes = sample_pool().pack();
    bytes[0] = 2;
    assert_eq!(Pool::unpack(&bytes), None);
    let bytes = sample_pool().pack();
    assert_eq!(Pool::unpack(&bytes[..POOL_SIZE - 1]), None);
    let mut longer = bytes.clone();
    longer.push(0);
    assert_eq!(Pool::unpack(&longer), None);
}

#[test]
fn instruction_layout_matches_borsh() {
    let init = DexInstruction::InitializePool { fee_numerator: 3, fee_denominator: 1000, bump: 7 };
    assert_eq!(init.pack(), borsh::to_vec(&(0u8, 3u64, 1000u64, 7u8)).unwrap());
    let add = DexInstruction::AddLiquidity { token_a_amount: 1, token_b_amount: 2, min_lp_amount: 3 };
    assert_eq!(add.pack(), borsh::to_vec(&(1u8, 1u64, 2u64, 3u64)).unwrap());
    let remove = DexInstruction::RemoveLiquidity { lp_amount: 4, min_token_a: 5, min_token_b: 6 };
    assert_eq!(remove.pack(), borsh::to_vec(&(2u8, 4u64, 5u64, 6u64)).unwrap());
    let swap = DexInstruction::Swap { amount_in: 7, min_amount_out: 8, a_to_b: true };
    assert_eq!(swap.pack(), borsh::to_vec(&(3u8, 7u64, 8u64, true)).unwrap());
    assert_eq!(DexInstruction::GetPoolInfo.pack(), vec![4u8]);
    for instruction in [init, add, remove, swap, DexInstruction::GetPoolInfo] {
        assert_eq!(DexInstruction::unpack(&instruction.pack()), Some(instruction));
    }
}

#[test]
fn instruction_unpack_refuses_malformed_data() {
    assert_eq!(DexInstruction::unpack(&[]), None);
    assert_eq!(DexInstruction::unpack(&[5]), None);
    assert_eq!(DexInstruction::unpack(&[4, 0]), None);
    let mut swap = DexInstruction::Swap { amount_in: 7, min_amount_out: 8, a_to_b: false }.pack();
    swap[17] = 2;
    assert_eq!(DexInstruction::unpack(&swap), None);
    let add = DexInstruction::AddLiquidity { token_a_amount: 1, token_b_amount: 2, min_lp_amount: 3 }.pack();
    assert_eq!(DexInstruction::unpack(&add[..24]), None);
}

#[test]
fn error_codes() {
    assert_eq!(DexError::AlreadyInitialized.code(), 0);
    assert_eq!(DexError::NotInitialized.code(), 1);
    assert_eq!(DexError::InsufficientLiquidity.code(), 2);
    assert_eq!(DexError::SlippageExceeded.code(), 3);
    assert_eq!(DexError::Overflow.code(), 4);
    assert_eq!(DexError::InvalidFee.code(), 5);
    assert_eq!(DexError::ZeroAmount.code(), 6);
    assert_eq!(DexError::InvalidPoolAccounts.code(), 7);
}

#[test]
fn initialize_pool_checks_the_derived_authority() {
    let program_id = Pubkey::new_from_array(key(9));
    let pool_account = Pubkey::new_from_array(key(8));
    let (authority, bump) =
        Pubkey::find_program_address(&[b"pool_authority", pool_account.as_ref()], &program_id);
    let keys = keys_with_authority(pool_account.to_bytes(), authority.to_bytes());
    let data = vec![0u8; POOL_SIZE];
    let pool = Processor::initialize_pool(&program_id.to_bytes(), &keys, 3, 1000, bump, &data).unwrap();
    assert!(pool.is_initialized);
    assert_eq!((pool.reserve_a, pool.reserve_b, pool.lp_supply), (0, 0, 0));
    assert_eq!((pool.fee_numerator, pool.fee_denominator, pool.bump), (3, 1000, bump));
    assert_eq!(pool.lp_mint, key(5));
    // the pool account key itself is not the authority
    let wrong = keys_with_authority(pool_account.to_bytes(), pool_account.to_bytes());
    assert_eq!(
        Processor::initialize_pool(&program_id.to_bytes(), &wrong, 3, 1000, bump, &data),
        Err(ProcessError::InvalidAccountData)
    );
    // a bump other than the canonical one
    assert_eq!(
        Processor::initialize_pool(&program_id.to_bytes(), &keys, 3, 1000, bump.wrapping_sub(1), &data),
        Err(ProcessError::InvalidAccountData)
    );
}

#[test]
fn initialize_pool_refusals() {
    let authority = key(7);
    let keys = keys_with_authority(key(8), authority);
    let found = Some((authority, 255u8));
    let data = vec![0u8; POOL_SIZE];
    assert_eq!(
        Processor::initialize_pool_with_authority(found, &keys, 1000, 1000, 255, &data),
        Err(ProcessError::Dex(DexError::InvalidFee))
    );
    assert_eq!(
        Processor::initialize_pool_with_authority(found, &keys, 0, 0, 255, &data),
        Err(ProcessError::Dex(DexError::InvalidFee))
    );
    assert_eq!(
        Processor::initialize_pool_with_authority(None, &keys, 3, 1000, 255, &data),
        Err(ProcessError::InvalidAccountData)
    );
    assert_eq!(
        Processor::initialize_pool_with_authority(found, &keys, 3, 1000, 255, &data[..POOL_SIZE - 1]),
        Err(ProcessError::AccountDataTooSmall)
    );
    let existing = sample_pool().pack();
    assert_eq!(
        Processor::initialize_pool_with_authority(found, &keys, 3, 1000, 255, &existing),
        Err(ProcessError::Dex(DexError::AlreadyInitialized))
    );
    // a larger account that starts with an initialized pool is refused too
    let mut larger = existing.clone();
    larger.push(0);
    assert_eq!(
        Processor::initialize_pool_with_authority(found, &keys, 3, 1000, 255, &larger),
        Err(ProcessError::Dex(DexError::AlreadyInitialized))
    );
    // a larger empty account is accepted
    let empty_larger = vec![0u8; POOL_SIZE + 10];
    assert!(Processor::initialize_pool_with_authority(found, &keys, 3, 1000, 255, &empty_larger).is_ok());
}

#[test]
fn add_liquidity_flow() {
    let pool = sample_pool();
    let data = pool.pack();
    let (loaded, lp) = Processor::add_liquidity_quote(100, 100, 100, add_accounts(&data)).unwrap();
    assert_eq!(loaded, pool);
    assert_eq!(lp, 100);
    let after = Processor::add_liquidity_settle(&loaded, 100, 100, lp).unwrap();
    assert_eq!((after.reserve_a, after.reserve_b, after.lp_supply), (1100, 1100, 1100));
    assert_eq!(
        Processor::add_liquidity_quote(100, 100, 101, add_accounts(&data)),
        Err(ProcessError::Dex(DexError::SlippageExceeded))
    );
    // zero amounts are refused before the accounts are looked at
    assert_eq!(
        Processor::add_liquidity_quote(0, 100, 0, None),
        Err(ProcessError::Dex(DexError::ZeroAmount))
    );
    assert_eq!(Processor::add_liquidity_quote(1, 100, 0, None), Err(ProcessError::NotEnoughAccountKeys));
    assert_eq!(
        Processor::add_liquidity_quote(1, 100, 0, add_accounts(&data[..10])),
        Err(ProcessError::InvalidPoolData)
    );
    let mut uninit = pool;
    uninit.is_initialized = false;
    assert_eq!(
        Processor::add_liquidity_quote(1, 100, 0, add_accounts(&uninit.pack())),
        Err(ProcessError::Dex(DexError::NotInitialized))
    );
    let mut full = pool;
    full.reserve_a = u64::MAX;
    assert_eq!(Processor::add_liquidity_settle(&full, 1, 1, 1), Err(DexError::Overflow));
}

#[test]
fn remove_liquidity_flow() {
    let mut pool = sample_pool();
    pool.reserve_a = 500;
    pool.reserve_b = 800;
    let data = pool.pack();
    let (_, a, b) = Processor::remove_liquidity_quote(100, 50, 80, remove_accounts(&data)).unwrap();
    assert_eq!((a, b), (50, 80));
    let after = Processor::remove_liquidity_settle(&pool, 100, a, b).unwrap();
    assert_eq!((after.reserve_a, after.reserve_b, after.lp_supply), (450, 720, 900));
    assert_eq!(
        Processor::remove_liquidity_quote(0, 0, 0, remove_accounts(&data)),
        Err(ProcessError::Dex(DexError::ZeroAmount))
    );
    assert_eq!(
        Processor::remove_liquidity_quote(100, 51, 0, remove_accounts(&data)),
        Err(ProcessError::Dex(DexError::SlippageExceeded))
    );
    let mut empty = pool;
    empty.lp_supply = 0;
    assert_eq!(
        Processor::remove_liquidity_quote(100, 0, 0, remove_accounts(&empty.pack())),
        Err(ProcessError::Dex(DexError::InsufficientLiquidity))
    );
    assert_eq!(Processor::remove_liquidity_settle(&pool, 1001, 0, 0), Err(DexError::Overflow));
}

#[test]
fn swap_flow() {
    let pool = sample_pool();
    let data = pool.pack();
    let (_, out) = Processor::swap_quote(100, 90, true, swap_accounts(&data, true)).unwrap();
    assert_eq!(out, 90);
    let after = Processor::swap_settle(&pool, 100, out, true).unwrap();
    assert_eq!((after.reserve_a, after.reserve_b, after.lp_supply), (1100, 910, 1000));
    let back = Processor::swap_settle(&pool, 100, out, false).unwrap();
    assert_eq!((back.reserve_a, back.reserve_b), (910, 1100));
    assert_eq!(
        Processor::swap_quote(0, 0, true, None),
        Err(ProcessError::Dex(DexError::ZeroAmount))
    );
    assert_eq!(
        Processor::swap_quote(100, 91, true, swap_accounts(&data, true)),
        Err(ProcessError::Dex(DexError::SlippageExceeded))
    );
    assert_eq!(
        Processor::swap_quote(1, 0, true, swap_accounts(&data, true)),
        Err(ProcessError::Dex(DexError::ZeroAmount))
    );
    let mut dry = pool;
    dry.reserve_b = 0;
    assert_eq!(
        Processor::swap_quote(100, 0, true, swap_accounts(&dry.pack(), true)),
        Err(ProcessError::Dex(DexError::InsufficientLiquidity))
    );
    let mut bad_fee = pool;
    bad_fee.fee_numerator = 2000;
    assert_eq!(
        Processor::swap_quote(100, 0, true, swap_accounts(&bad_fee.pack(), true)),
        Err(ProcessError::Dex(DexError::Overflow))
    );
}

#[test]
fn pool_info_instruction() {
    let pool = sample_pool();
    let data = pool.pack();
    let (loaded, info) = Processor::pool_info(Some(&data)).unwrap();
    assert_eq!(loaded, pool);
    assert_eq!(
        info,
        PoolInfo {
            price_a_to_b_e6: Some(1_000_000),
            k: Some(1_000_000),
            a_per_lp_e6: Some(1_000_000),
            b_per_lp_e6: Some(1_000_000),
        }
    );
    assert_eq!(Processor::pool_info(None), Err(ProcessError::NotEnoughAccountKeys));
    assert_eq!(Processor::pool_info(Some(&data[1..])), Err(ProcessError::InvalidPoolData));
}

#[test]
fn full_lifecycle_keeps_pool_consistent() {
    let authority = key(7);
    let keys = keys_with_authority(key(8), authority);
    let data = vec![0u8; POOL_SIZE];
    let pool = Processor::initialize_pool_with_authority(Some((authority, 255)), &keys, 3, 1000, 255, &data).unwrap();
    let (pool, lp) = Processor::add_liquidity_quote(400, 900, 0, add_accounts(&pool.pack())).unwrap();
    assert_eq!(lp, 600);
    let pool = Processor::add_liquidity_settle(&pool, 400, 900, lp).unwrap();
    let (pool, out) = Processor::swap_quote(100, 0, true, swap_accounts(&pool.pack(), true)).unwrap();
    let pool = Processor::swap_settle(&pool, 100, out, true).unwrap();
    assert!(pool.reserve_a as u128 * pool.reserve_b as u128 >= 400 * 900);
    let (pool, a, b) = Processor::remove_liquidity_quote(600, 0, 0, remove_accounts(&pool.pack())).unwrap();
    assert_eq!((a, b), (pool.reserve_a, pool.reserve_b));
    let pool = Processor::remove_liquidity_settle(&pool, 600, a, b).unwrap();
    assert_eq!((pool.reserve_a, pool.reserve_b, pool.lp_supply), (0, 0, 0));
}

#[test]
fn instructions_refuse_accounts_the_pool_does_not_record() {
    let pool = sample_pool();
    let data = pool.pack();
    // deposit into a vault that is not the pool's
    let wrong_vault = Some(AddLiquidityAccounts {
        pool_data: &data,
        token_a_vault: key(3),
        token_b_vault: key(9),
        lp_mint: key(5),
    });
    assert_eq!(
        Processor::add_liquidity_quote(100, 100, 0, wrong_vault),
        Err(ProcessError::Dex(DexError::InvalidPoolAccounts))
    );
    let wrong_mint = Some(AddLiquidityAccounts {
        pool_data: &data,
        token_a_vault: key(3),
        token_b_vault: key(4),
        lp_mint: key(6),
    });
    assert_eq!(
        Processor::add_liquidity_quote(100, 100, 0, wrong_mint),
        Err(ProcessError::Dex(DexError::InvalidPoolAccounts))
    );
    // withdrawal from vaults given in the wrong places
    let swapped = Some(RemoveLiquidityAccounts {
        pool_data: &data,
        lp_mint: key(5),
        token_a_vault: key(4),
        token_b_vault: key(3),
    });
    assert_eq!(
        Processor::remove_liquidity_quote(100, 0, 0, swapped),
        Err(ProcessError::Dex(DexError::InvalidPoolAccounts))
    );
    // a swap paid out of the user's own account instead of the pool's vault
    let own = Some(SwapAccounts { pool_data: &data, pool_source_vault: key(3), pool_dest_vault: key(42) });
    assert_eq!(
        Processor::swap_quote(100, 0, true, own),
        Err(ProcessError::Dex(DexError::InvalidPoolAccounts))
    );
    // the vaults of the other direction
    assert_eq!(
        Processor::swap_quote(100, 0, true, swap_accounts(&data, false)),
        Err(ProcessError::Dex(DexError::InvalidPoolAccounts))
    );
    // the pool's own accounts are accepted
    assert!(Processor::swap_quote(100, 0, false, swap_accounts(&data, false)).is_ok());
    assert_eq!(DexError::InvalidPoolAccounts.code(), 7);
}
