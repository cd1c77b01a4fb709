use solana_dex_demo::math::{
    calculate_lp_tokens, calculate_removal_amounts, integer_sqrt, swap_output,
};

#[test]
fn test_swap_output_basic() {
    // 100 A in, reserves 1000 A / 1000 B, 0.3% fee
    let out = swap_output(100, 1000, 1000, 3, 1000).unwrap();
    // Theoretical: 1000*100*997 / (1000*1000 + 100*997) ≈ 90.66
    assert!(out >= 90 && out <= 91, "Expected ~90, got {}", out);
}

#[test]
fn test_swap_output_asymmetric_reserves() {
    // Small amount in, deep reserve on out side
    let out = swap_output(10, 100, 10_000, 3, 1000).unwrap();
    assert!(out > 0, "Should produce non-zero output");
}

#[test]
fn test_swap_output_zero_returns_none() {
    assert!(swap_output(0, 1000, 1000, 3, 1000).is_none());
    assert!(swap_output(100, 0, 1000, 3, 1000).is_none());
}

#[test]
fn test_lp_first_deposit_equal() {
    // sqrt(1000 * 1000) = 1000
    let lp = calculate_lp_tokens(1000, 1000, 0, 0, 0).unwrap();
    assert_eq!(lp, 1000);
}

#[test]
fn test_lp_first_deposit_unequal() {
    // sqrt(400 * 900) = sqrt(360000) = 600
    let lp = calculate_lp_tokens(400, 900, 0, 0, 0).unwrap();
    assert_eq!(lp, 600);
}

#[test]
fn test_lp_subsequent_deposit() {
    // Existing: 1000 A, 1000 B, 1000 LP
    // Adding  :  100 A,  100 B → LP = 100
    let lp = calculate_lp_tokens(100, 100, 1000, 1000, 1000).unwrap();
    assert_eq!(lp, 100);
}

#[test]
fn test_lp_subsequent_deposit_gives_min() {
    // Adding more B than A relative to ratio → limited by A side
    let lp = calculate_lp_tokens(50, 200, 1000, 1000, 1000).unwrap();
    assert_eq!(lp, 50, "Should be limited by the smaller ratio (A side)");
}

#[test]
fn test_removal_amounts_proportional() {
    // Remove 100 LP from 1000 total: get 10% of reserves
    let (a, b) = calculate_removal_amounts(100, 500, 800, 1000).unwrap();
    assert_eq!(a, 50);
    assert_eq!(b, 80);
}

#[test]
fn test_removal_amounts_zero_supply_returns_none() {
    assert!(calculate_removal_amounts(100, 500, 800, 0).is_none());
}

#[test]
fn test_constant_product_invariant() {
    // After swap, k = reserve_in_new × reserve_out_new should be ≥ k_old
    let reserve_in = 1000u64;
    let reserve_out = 1000u64;
    let amount_in = 100u64;
    let out = swap_output(amount_in, reserve_in, reserve_out, 3, 1000).unwrap();
    let new_reserve_in = reserve_in + amount_in;
    let new_reserve_out = reserve_out - out;
    // k should be >= original k (fee causes slight increase)
    assert!(
        (new_reserve_in as u128) * (new_reserve_out as u128)
            >= (reserve_in as u128) * (reserve_out as u128)
    );
}

#[test]
fn swap_output_exact_value() {
    // floor(1000 * 100 * 997 / (1000 * 1000 + 100 * 997)) = floor(99_700_000 / 1_099_700) = 90
    assert_eq!(swap_output(100, 1000, 1000, 3, 1000), Some(90));
    // floor(10_000 * 10 * 997 / (100 * 1000 + 10 * 997)) = floor(99_700_000 / 109_970) = 906
    assert_eq!(swap_output(10, 100, 10_000, 3, 1000), Some(906));
    // no fee: floor(1000 * 1000 / 2000) = 500
    assert_eq!(swap_output(1000, 1000, 1000, 0, 1000), Some(500));
}

#[test]
fn swap_output_refuses_bad_fees_and_overflow() {
    // fee denominator zero
    assert_eq!(swap_output(100, 1000, 1000, 0, 0), None);
    // fee above 100%
    assert_eq!(swap_output(100, 1000, 1000, 1001, 1000), None);
    // reserve_out zero
    assert_eq!(swap_output(100, 1000, 0, 3, 1000), None);
    // a 100% fee gives nothing
    assert_eq!(swap_output(100, 1000, 1000, 1000, 1000), Some(0));
    // reserve_out * amount_in * fee_factor does not fit in 128 bits
    assert_eq!(swap_output(u64::MAX, 1, u64::MAX, 0, u64::MAX), None);
}

#[test]
fn swap_output_never_drains_the_pool() {
    // an enormous input still leaves something in the output reserve
    let out = swap_output(u32::MAX as u64, 1, 1000, 0, 1).unwrap();
    assert!(out < 1000);
    assert_eq!(out, 999);
}

#[test]
fn integer_sqrt_values() {
    assert_eq!(integer_sqrt(0), 0);
    assert_eq!(integer_sqrt(1), 1);
    assert_eq!(integer_sqrt(2), 1);
    assert_eq!(integer_sqrt(3), 1);
    assert_eq!(integer_sqrt(4), 2);
    assert_eq!(integer_sqrt(15), 3);
    assert_eq!(integer_sqrt(16), 4);
    assert_eq!(integer_sqrt(360_000), 600);
    assert_eq!(integer_sqrt(999_999), 999);
    // the largest product of two u64 amounts
    let m = u64::MAX as u128;
    assert_eq!(integer_sqrt(m * m), m);
    assert_eq!(integer_sqrt(u128::MAX - 1), m);
}

#[test]
fn lp_tokens_edge_cases() {
    // first deposit of the largest amounts
    assert_eq!(calculate_lp_tokens(u64::MAX, u64::MAX, 0, 0, 0), Some(u64::MAX));
    // first deposit of a zero side mints nothing
    assert_eq!(calculate_lp_tokens(0, 1000, 0, 0, 0), Some(0));
    // later deposit into a pool with an empty reserve
    assert_eq!(calculate_lp_tokens(10, 10, 0, 1000, 1000), None);
    // share above 64 bits
    assert_eq!(calculate_lp_tokens(u64::MAX, u64::MAX, 1, 1, u64::MAX), None);
    // rounding down: 1 * 3 / 2 = 1, 5 * 3 / 4 = 3 → min 1
    assert_eq!(calculate_lp_tokens(1, 5, 2, 4, 3), Some(1));
}

#[test]
fn removal_amounts_edge_cases() {
    // burning the whole supply pays out the whole reserves
    assert_eq!(calculate_removal_amounts(1000, 500, 800, 1000), Some((500, 800)));
    // rounding down
    assert_eq!(calculate_removal_amounts(1, 5, 7, 3), Some((1, 2)));
    // amount above 64 bits when burning more than the supply
    assert_eq!(calculate_removal_amounts(u64::MAX, u64::MAX, 1, 1), None);
}
