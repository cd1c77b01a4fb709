use solana_dex_demo::amm::{
    pool_info, quote_add_liquidity, quote_remove_liquidity, quote_swap, saturating_mul,
    settle_add_liquidity, settle_remove_liquidity, settle_swap, AmmError, PoolInfo, Reserves,
};

fn reserves(reserve_a: u64, reserve_b: u64, lp_supply: u64) -> Reserves {
    Reserves { reserve_a, reserve_b, lp_supply }
}

#[test]
fn quote_add_liquidity_outcomes() {
    let empty = reserves(0, 0, 0);
    assert_eq!(quote_add_liquidity(&empty, 400, 900, 0), Ok(600));
    assert_eq!(quote_add_liquidity(&empty, 400, 900, 601), Err(AmmError::SlippageExceeded));
    assert_eq!(quote_add_liquidity(&empty, 0, 900, 0), Err(AmmError::ZeroAmount));
    let pool = reserves(1000, 1000, 1000);
    assert_eq!(quote_add_liquidity(&pool, 50, 200, 50), Ok(50));
    // 1 * 1000 / 3000 rounds to zero LP
    let deep = reserves(3000, 3000, 1000);
    assert_eq!(quote_add_liquidity(&deep, 1, 1, 0), Err(AmmError::ZeroAmount));
    let broken = reserves(0, 1000, 1000);
    assert_eq!(quote_add_liquidity(&broken, 10, 10, 0), Err(AmmError::Overflow));
}

#[test]
fn settle_add_liquidity_outcomes() {
    let pool = reserves(1000, 1000, 1000);
    assert_eq!(settle_add_liquidity(&pool, 100, 200, 100), Ok(reserves(1100, 1200, 1100)));
    let full = reserves(u64::MAX, 1, 1);
    assert_eq!(settle_add_liquidity(&full, 1, 1, 1), Err(AmmError::Overflow));
    let full_lp = reserves(1, 1, u64::MAX);
    assert_eq!(settle_add_liquidity(&full_lp, 1, 1, 1), Err(AmmError::Overflow));
}

#[test]
fn quote_and_settle_remove_liquidity() {
    let pool = reserves(500, 800, 1000);
    assert_eq!(quote_remove_liquidity(&pool, 100, 50, 80), Ok((50, 80)));
    assert_eq!(quote_remove_liquidity(&pool, 100, 51, 0), Err(AmmError::SlippageExceeded));
    assert_eq!(quote_remove_liquidity(&pool, 100, 0, 81), Err(AmmError::SlippageExceeded));
    let empty = reserves(0, 0, 0);
    assert_eq!(quote_remove_liquidity(&empty, 100, 0, 0), Err(AmmError::InsufficientLiquidity));
    assert_eq!(settle_remove_liquidity(&pool, 100, 50, 80), Ok(reserves(450, 720, 900)));
    // burning more LP than exists
    assert_eq!(settle_remove_liquidity(&pool, 1001, 0, 0), Err(AmmError::Overflow));
    assert_eq!(settle_remove_liquidity(&pool, 1, 501, 0), Err(AmmError::Overflow));
}

#[test]
fn quote_and_settle_swap() {
    let pool = reserves(1000, 1000, 1000);
    assert_eq!(quote_swap(&pool, 3, 1000, 100, 90, true), Ok(90));
    assert_eq!(quote_swap(&pool, 3, 1000, 100, 91, true), Err(AmmError::SlippageExceeded));
    // tiny input rounds to zero output
    assert_eq!(quote_swap(&pool, 3, 1000, 1, 0, false), Err(AmmError::ZeroAmount));
    // fee above 100%
    assert_eq!(quote_swap(&pool, 2000, 1000, 100, 0, true), Err(AmmError::Overflow));
    let one_sided = reserves(1000, 0, 1000);
    assert_eq!(quote_swap(&one_sided, 3, 1000, 100, 0, true), Err(AmmError::InsufficientLiquidity));
    // B to A uses reserve_b as input side
    let skewed = reserves(10_000, 100, 1000);
    assert_eq!(quote_swap(&skewed, 3, 1000, 10, 0, false), Ok(906));
    assert_eq!(settle_swap(&pool, 100, 90, true), Ok(reserves(1100, 910, 1000)));
    assert_eq!(settle_swap(&pool, 100, 90, false), Ok(reserves(910, 1100, 1000)));
    assert_eq!(settle_swap(&pool, 100, 1001, true), Err(AmmError::Overflow));
    let full = reserves(1, u64::MAX, 1);
    assert_eq!(settle_swap(&full, 1, 0, false), Err(AmmError::Overflow));
}

#[test]
fn swap_keeps_k_on_concrete_pool() {
    let pool = reserves(5_000, 2_000, 3_000);
    let out = quote_swap(&pool, 3, 1000, 1_234, 0, true).unwrap();
    let after = settle_swap(&pool, 1_234, out, true).unwrap();
    assert!(
        (after.reserve_a as u128) * (after.reserve_b as u128)
            >= (pool.reserve_a as u128) * (pool.reserve_b as u128)
    );
    assert_eq!(after.lp_supply, pool.lp_supply);
}

#[test]
fn deposit_then_withdraw_is_no_profit() {
    let pool = reserves(1_000, 3_000, 1_700);
    let lp = quote_add_liquidity(&pool, 333, 777, 0).unwrap();
    let after = settle_add_liquidity(&pool, 333, 777, lp).unwrap();
    let (out_a, out_b) = quote_remove_liquidity(&after, lp, 0, 0).unwrap();
    assert!(out_a <= 333);
    assert!(out_b <= 777);
    // first deposit: the depositor owns the whole pool and gets it back
    let empty = reserves(0, 0, 0);
    let lp = quote_add_liquidity(&empty, 400, 900, 0).unwrap();
    let after = settle_add_liquidity(&empty, 400, 900, lp).unwrap();
    assert_eq!(quote_remove_liquidity(&after, lp, 0, 0), Ok((400, 900)));
    let drained = settle_remove_liquidity(&after, lp, 400, 900).unwrap();
    assert_eq!(drained, reserves(0, 0, 0));
}

#[test]
fn pool_info_values() {
    let pool = reserves(1_000, 2_500, 500);
    assert_eq!(
        pool_info(&pool),
        PoolInfo {
            price_a_to_b_e6: Some(2_500_000),
            k: Some(2_500_000),
            a_per_lp_e6: Some(2_000_000),
            b_per_lp_e6: Some(5_000_000),
        }
    );
    let empty = reserves(0, 0, 0);
    assert_eq!(
        pool_info(&empty),
        PoolInfo { price_a_to_b_e6: None, k: Some(0), a_per_lp_e6: None, b_per_lp_e6: None }
    );
    // saturating scale and overflowing k
    let huge = reserves(u64::MAX, u64::MAX, 1);
    assert_eq!(
        pool_info(&huge),
        PoolInfo {
            price_a_to_b_e6: Some(1),
            k: None,
            a_per_lp_e6: Some(u64::MAX),
            b_per_lp_e6: Some(u64::MAX),
        }
    );
}

#[test]
fn saturating_mul_values() {
    assert_eq!(saturating_mul(3, 4), 12);
    assert_eq!(saturating_mul(u64::MAX, 2), u64::MAX);
    assert_eq!(saturating_mul(u64::MAX, 1), u64::MAX);
    assert_eq!(saturating_mul(0, u64::MAX), 0);
}

#[test]
fn swap_round_trip_returns_no_more_than_sent() {
    let pool = reserves(1_000, 1_000, 1_000);
    let out = quote_swap(&pool, 3, 1000, 100, 0, true).unwrap();
    let after = settle_swap(&pool, 100, out, true).unwrap();
    let back = quote_swap(&after, 3, 1000, out, 0, false).unwrap();
    assert!(back <= 100);
    assert_eq!(back, 98);
    // even without a fee, rounding keeps the round trip from profiting
    let out = quote_swap(&pool, 0, 1000, 333, 0, false).unwrap();
    let after = settle_swap(&pool, 333, out, false).unwrap();
    let back = quote_swap(&after, 0, 1000, out, 0, true).unwrap();
    assert!(back <= 333);
}
