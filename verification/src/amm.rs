//! The pool rules of the AMM, shared by the native program and the Anchor
//! program: what a deposit, a withdrawal and a swap quote, and how each one
//! moves the reserves and the LP supply.
use vstd::prelude::*;
use vstd::arithmetic::div_mod::*;
use vstd::arithmetic::mul::*;
use crate::math::{
    calculate_lp_tokens, calculate_removal_amounts, lemma_removal_within_reserves,
    lemma_swap_keeps_constant_product, lemma_swap_round_trip_no_profit, spec_calculate_lp_tokens,
    spec_calculate_removal_amounts,
    spec_proportional_lp, spec_swap_output, swap_output,
};

verus! {

/// Why the pool refuses an operation.
#[derive(Debug, Clone, Copy, PartialEq, Eq, Structural)]
pub enum AmmError {
    /// An amount that must be positive is zero.
    ZeroAmount,
    /// The pool has no liquidity to serve the request.
    InsufficientLiquidity,
    /// The result is below the caller's minimum.
    SlippageExceeded,
    /// An amount does not fit in 64 bits (or in the 128-bit intermediates).
    Overflow,
}

/// The balances of a pool: both token reserves and the outstanding LP supply.
#[derive(Debug, Clone, Copy, PartialEq, Eq, Structural)]
pub struct Reserves {
    pub reserve_a: u64,
    pub reserve_b: u64,
    pub lp_supply: u64,
}

impl Reserves {
    /// A pool holds tokens exactly when LP tokens are outstanding: the LP
    /// supply is zero if and only if each reserve is zero.
    pub open spec fn is_consistent(self) -> bool {
        &&& (self.lp_supply == 0) == (self.reserve_a == 0)
        &&& (self.lp_supply == 0) == (self.reserve_b == 0)
    }
}

/// LP tokens quoted for depositing `token_a_amount` and `token_b_amount`.
pub open spec fn spec_quote_add_liquidity(
    r: Reserves,
    token_a_amount: u64,
    token_b_amount: u64,
    min_lp_amount: u64,
) -> Result<u64, AmmError> {
    match spec_calculate_lp_tokens(
        token_a_amount,
        token_b_amount,
        r.reserve_a,
        r.reserve_b,
        r.lp_supply,
    ) {
        None => Err(AmmError::Overflow),
        Some(lp) => if lp == 0 {
            Err(AmmError::ZeroAmount)
        } else if lp < min_lp_amount {
            Err(AmmError::SlippageExceeded)
        } else {
            Ok(lp)
        },
    }
}

/// Quote a deposit: the LP tokens to mint, refused when they cannot be
/// computed (`Overflow`), are zero (`ZeroAmount`) or fall below
/// `min_lp_amount` (`SlippageExceeded`).
pub fn quote_add_liquidity(
    r: &Reserves,
    token_a_amount: u64,
    token_b_amount: u64,
    min_lp_amount: u64,
) -> (res: Result<u64, AmmError>)
    ensures
        res == spec_quote_add_liquidity(*r, token_a_amount, token_b_amount, min_lp_amount),
        res matches Ok(lp) ==> lp > 0 && lp >= min_lp_amount && spec_calculate_lp_tokens(
            token_a_amount,
            token_b_amount,
            r.reserve_a,
            r.reserve_b,
            r.lp_supply,
        ) == Some(lp),
        spec_calculate_lp_tokens(
            token_a_amount,
            token_b_amount,
            r.reserve_a,
            r.reserve_b,
            r.lp_supply,
        ) matches Some(lp) ==> (lp > 0 && lp >= min_lp_amount ==> res == Ok::<u64, AmmError>(lp)),
{
    let lp_amount = match calculate_lp_tokens(
        token_a_amount,
        token_b_amount,
        r.reserve_a,
        r.reserve_b,
        r.lp_supply,
    ) {
        Some(lp) => lp,
        None => return Err(AmmError::Overflow),
    };
    if lp_amount == 0 {
        return Err(AmmError::ZeroAmount);
    }
    if lp_amount < min_lp_amount {
        return Err(AmmError::SlippageExceeded);
    }
    Ok(lp_amount)
}

/// The balances after a deposit of `token_a_amount` and `token_b_amount`
/// that minted `lp_amount` LP tokens.
pub open spec fn spec_settle_add_liquidity(
    r: Reserves,
    token_a_amount: u64,
    token_b_amount: u64,
    lp_amount: u64,
) -> Result<Reserves, AmmError> {
    if r.reserve_a + token_a_amount > u64::MAX || r.reserve_b + token_b_amount > u64::MAX
        || r.lp_supply + lp_amount > u64::MAX {
        Err(AmmError::Overflow)
    } else {
        Ok(
            Reserves {
                reserve_a: (r.reserve_a + token_a_amount) as u64,
                reserve_b: (r.reserve_b + token_b_amount) as u64,
                lp_supply: (r.lp_supply + lp_amount) as u64,
            },
        )
    }
}

/// Record a deposit: both reserves grow by the deposited amounts and the LP
/// supply by the minted LP tokens.
pub fn settle_add_liquidity(
    r: &Reserves,
    token_a_amount: u64,
    token_b_amount: u64,
    lp_amount: u64,
) -> (res: Result<Reserves, AmmError>)
    ensures
        res == spec_settle_add_liquidity(*r, token_a_amount, token_b_amount, lp_amount),
        res matches Ok(after) ==> after.reserve_a == r.reserve_a + token_a_amount
            && after.reserve_b == r.reserve_b + token_b_amount && after.lp_supply == r.lp_supply
            + lp_amount,
        res is Err <==> (r.reserve_a + token_a_amount > u64::MAX || r.reserve_b + token_b_amount
            > u64::MAX || r.lp_supply + lp_amount > u64::MAX),
{
    let reserve_a = match r.reserve_a.checked_add(token_a_amount) {
        Some(v) => v,
        None => return Err(AmmError::Overflow),
    };
    let reserve_b = match r.reserve_b.checked_add(token_b_amount) {
        Some(v) => v,
        None => return Err(AmmError::Overflow),
    };
    let lp_supply = match r.lp_supply.checked_add(lp_amount) {
        Some(v) => v,
        None => return Err(AmmError::Overflow),
    };
    Ok(Reserves { reserve_a, reserve_b, lp_supply })
}

/// Token amounts quoted for burning `lp_amount` LP tokens.
pub open spec fn spec_quote_remove_liquidity(
    r: Reserves,
    lp_amount: u64,
    min_token_a: u64,
    min_token_b: u64,
) -> Result<(u64, u64), AmmError> {
    match spec_calculate_removal_amounts(lp_amount, r.reserve_a, r.reserve_b, r.lp_supply) {
        None => Err(AmmError::InsufficientLiquidity),
        Some((amount_a, amount_b)) => if amount_a < min_token_a || amount_b < min_token_b {
            Err(AmmError::SlippageExceeded)
        } else {
            Ok((amount_a, amount_b))
        },
    }
}

/// Quote a withdrawal: the proportional amounts of A and B, refused when they
/// cannot be computed (`InsufficientLiquidity`) or one falls below its
/// minimum (`SlippageExceeded`).
pub fn quote_remove_liquidity(
    r: &Reserves,
    lp_amount: u64,
    min_token_a: u64,
    min_token_b: u64,
) -> (res: Result<(u64, u64), AmmError>)
    ensures
        res == spec_quote_remove_liquidity(*r, lp_amount, min_token_a, min_token_b),
        res matches Ok((a, b)) ==> a >= min_token_a && b >= min_token_b
            && spec_calculate_removal_amounts(lp_amount, r.reserve_a, r.reserve_b, r.lp_supply)
            == Some((a, b)),
        spec_calculate_removal_amounts(lp_amount, r.reserve_a, r.reserve_b, r.lp_supply) matches Some(
            (a, b),
        ) ==> (a >= min_token_a && b >= min_token_b ==> res == Ok::<(u64, u64), AmmError>((a, b))),
{
    let (amount_a, amount_b) = match calculate_removal_amounts(
        lp_amount,
        r.reserve_a,
        r.reserve_b,
        r.lp_supply,
    ) {
        Some(amounts) => amounts,
        None => return Err(AmmError::InsufficientLiquidity),
    };
    if amount_a < min_token_a || amount_b < min_token_b {
        return Err(AmmError::SlippageExceeded);
    }
    Ok((amount_a, amount_b))
}

/// The balances after burning `lp_amount` LP tokens against `amount_a` and
/// `amount_b`.
pub open spec fn spec_settle_remove_liquidity(
    r: Reserves,
    lp_amount: u64,
    amount_a: u64,
    amount_b: u64,
) -> Result<Reserves, AmmError> {
    if r.reserve_a < amount_a || r.reserve_b < amount_b || r.lp_supply < lp_amount {
        Err(AmmError::Overflow)
    } else {
        Ok(
            Reserves {
                reserve_a: (r.reserve_a - amount_a) as u64,
                reserve_b: (r.reserve_b - amount_b) as u64,
                lp_supply: (r.lp_supply - lp_amount) as u64,
            },
        )
    }
}

/// Record a withdrawal: both reserves shrink by the paid-out amounts and the
/// LP supply by the burned LP tokens.
pub fn settle_remove_liquidity(
    r: &Reserves,
    lp_amount: u64,
    amount_a: u64,
    amount_b: u64,
) -> (res: Result<Reserves, AmmError>)
    ensures
        res == spec_settle_remove_liquidity(*r, lp_amount, amount_a, amount_b),
        res matches Ok(after) ==> after.reserve_a == r.reserve_a - amount_a && after.reserve_b
            == r.reserve_b - amount_b && after.lp_supply == r.lp_supply - lp_amount,
        res is Err <==> (amount_a > r.reserve_a || amount_b > r.reserve_b || lp_amount
            > r.lp_supply),
{
    let reserve_a = match r.reserve_a.checked_sub(amount_a) {
        Some(v) => v,
        None => return Err(AmmError::Overflow),
    };
    let reserve_b = match r.reserve_b.checked_sub(amount_b) {
        Some(v) => v,
        None => return Err(AmmError::Overflow),
    };
    let lp_supply = match r.lp_supply.checked_sub(lp_amount) {
        Some(v) => v,
        None => return Err(AmmError::Overflow),
    };
    Ok(Reserves { reserve_a, reserve_b, lp_supply })
}

/// The reserves a swap takes from and pays into: `(reserve_in, reserve_out)`.
pub open spec fn swap_sides(r: Reserves, a_to_b: bool) -> (u64, u64) {
    if a_to_b {
        (r.reserve_a, r.reserve_b)
    } else {
        (r.reserve_b, r.reserve_a)
    }
}

/// Output quoted for swapping `amount_in` in the direction `a_to_b`.
pub open spec fn spec_quote_swap(
    r: Reserves,
    fee_numerator: u64,
    fee_denominator: u64,
    amount_in: u64,
    min_amount_out: u64,
    a_to_b: bool,
) -> Result<u64, AmmError> {
    let (reserve_in, reserve_out) = swap_sides(r, a_to_b);
    if r.reserve_a == 0 || r.reserve_b == 0 {
        Err(AmmError::InsufficientLiquidity)
    } else {
        match spec_swap_output(amount_in, reserve_in, reserve_out, fee_numerator, fee_denominator) {
            None => Err(AmmError::Overflow),
            Some(out) => if out == 0 {
                Err(AmmError::ZeroAmount)
            } else if out < min_amount_out {
                Err(AmmError::SlippageExceeded)
            } else {
                Ok(out)
            },
        }
    }
}

/// Quote a swap: the output by the constant-product formula, refused when a
/// reserve is empty (`InsufficientLiquidity`), the output cannot be computed
/// (`Overflow`), is zero (`ZeroAmount`) or falls below `min_amount_out`
/// (`SlippageExceeded`).
pub fn quote_swap(
    r: &Reserves,
    fee_numerator: u64,
    fee_denominator: u64,
    amount_in: u64,
    min_amount_out: u64,
    a_to_b: bool,
) -> (res: Result<u64, AmmError>)
    ensures
        res == spec_quote_swap(*r, fee_numerator, fee_denominator, amount_in, min_amount_out, a_to_b),
        res matches Ok(out) ==> out > 0 && out >= min_amount_out && r.reserve_a > 0 && r.reserve_b
            > 0 && (if a_to_b {
            spec_swap_output(amount_in, r.reserve_a, r.reserve_b, fee_numerator, fee_denominator)
        } else {
            spec_swap_output(amount_in, r.reserve_b, r.reserve_a, fee_numerator, fee_denominator)
        }) == Some(out),
        (if a_to_b {
            spec_swap_output(amount_in, r.reserve_a, r.reserve_b, fee_numerator, fee_denominator)
        } else {
            spec_swap_output(amount_in, r.reserve_b, r.reserve_a, fee_numerator, fee_denominator)
        }) matches Some(out) ==> (r.reserve_a > 0 && r.reserve_b > 0 && out > 0 && out
            >= min_amount_out ==> res == Ok::<u64, AmmError>(out)),
        r.reserve_a == 0 || r.reserve_b == 0 ==> res == Err::<u64, AmmError>(
            AmmError::InsufficientLiquidity,
        ),
{
    if r.reserve_a == 0 || r.reserve_b == 0 {
        return Err(AmmError::InsufficientLiquidity);
    }
    let (reserve_in, reserve_out) = if a_to_b {
        (r.reserve_a, r.reserve_b)
    } else {
        (r.reserve_b, r.reserve_a)
    };
    let amount_out = match swap_output(
        amount_in,
        reserve_in,
        reserve_out,
        fee_numerator,
        fee_denominator,
    ) {
        Some(out) => out,
        None => return Err(AmmError::Overflow),
    };
    if amount_out == 0 {
        return Err(AmmError::ZeroAmount);
    }
    if amount_out < min_amount_out {
        return Err(AmmError::SlippageExceeded);
    }
    Ok(amount_out)
}

/// The balances after a swap that took `amount_in` and paid `amount_out`.
pub open spec fn spec_settle_swap(
    r: Reserves,
    amount_in: u64,
    amount_out: u64,
    a_to_b: bool,
) -> Result<Reserves, AmmError> {
    if a_to_b {
        if r.reserve_a + amount_in > u64::MAX || r.reserve_b < amount_out {
            Err(AmmError::Overflow)
        } else {
            Ok(
                Reserves {
                    reserve_a: (r.reserve_a + amount_in) as u64,
                    reserve_b: (r.reserve_b - amount_out) as u64,
                    lp_supply: r.lp_supply,
                },
            )
        }
    } else {
        if r.reserve_b + amount_in > u64::MAX || r.reserve_a < amount_out {
            Err(AmmError::Overflow)
        } else {
            Ok(
                Reserves {
                    reserve_a: (r.reserve_a - amount_out) as u64,
                    reserve_b: (r.reserve_b + amount_in) as u64,
                    lp_supply: r.lp_supply,
                },
            )
        }
    }
}

/// Record a swap: the input side grows by `amount_in`, the output side
/// shrinks by `amount_out`, the LP supply stays.
pub fn settle_swap(r: &Reserves, amount_in: u64, amount_out: u64, a_to_b: bool) -> (res: Result<
    Reserves,
    AmmError,
>)
    ensures
        res == spec_settle_swap(*r, amount_in, amount_out, a_to_b),
        res matches Ok(after) ==> after.lp_supply == r.lp_supply && (if a_to_b {
            after.reserve_a == r.reserve_a + amount_in && after.reserve_b == r.reserve_b
                - amount_out
        } else {
            after.reserve_b == r.reserve_b + amount_in && after.reserve_a == r.reserve_a
                - amount_out
        }),
        res is Err <==> (if a_to_b {
            r.reserve_a + amount_in > u64::MAX || amount_out > r.reserve_b
        } else {
            r.reserve_b + amount_in > u64::MAX || amount_out > r.reserve_a
        }),
{
    if a_to_b {
        let reserve_a = match r.reserve_a.checked_add(amount_in) {
            Some(v) => v,
            None => return Err(AmmError::Overflow),
        };
        let reserve_b = match r.reserve_b.checked_sub(amount_out) {
            Some(v) => v,
            None => return Err(AmmError::Overflow),
        };
        Ok(Reserves { reserve_a, reserve_b, lp_supply: r.lp_supply })
    } else {
        let reserve_b = match r.reserve_b.checked_add(amount_in) {
            Some(v) => v,
            None => return Err(AmmError::Overflow),
        };
        let reserve_a = match r.reserve_a.checked_sub(amount_out) {
            Some(v) => v,
            None => return Err(AmmError::Overflow),
        };
        Ok(Reserves { reserve_a, reserve_b, lp_supply: r.lp_supply })
    }
}

/// Fixed-point scale of the quoted prices and per-LP backings (1e6).
pub const PRICE_SCALE: u64 = 1_000_000;

/// `x * y`, or `u64::MAX` when the product does not fit.
pub open spec fn spec_saturating_mul(x: u64, y: u64) -> u64 {
    if x * y > u64::MAX {
        u64::MAX
    } else {
        (x * y) as u64
    }
}

/// `x * y` clamped at `u64::MAX`.
pub fn saturating_mul(x: u64, y: u64) -> (p: u64)
    ensures
        p == spec_saturating_mul(x, y),
        x * y <= u64::MAX ==> p == x * y,
        x * y > u64::MAX ==> p == u64::MAX,
{
    match x.checked_mul(y) {
        Some(p) => p,
        None => u64::MAX,
    }
}

/// A read-only summary of a pool's state.
#[derive(Debug, Clone, Copy, PartialEq, Eq, Structural)]
pub struct PoolInfo {
    /// Spot price of A in B, times 1e6 (`None` for an empty pool).
    pub price_a_to_b_e6: Option<u64>,
    /// The constant product `reserve_a * reserve_b` (`None` when it overflows 64 bits).
    pub k: Option<u64>,
    /// Token A backing each LP token, times 1e6 (`None` without LP supply).
    pub a_per_lp_e6: Option<u64>,
    /// Token B backing each LP token, times 1e6 (`None` without LP supply).
    pub b_per_lp_e6: Option<u64>,
}

/// The summary of a pool: prices and backings are computed in 64 bits with
/// the scaled numerator saturating at `u64::MAX`.
pub open spec fn spec_pool_info(r: Reserves) -> PoolInfo {
    PoolInfo {
        price_a_to_b_e6: if r.reserve_a > 0 {
            Some(spec_saturating_mul(r.reserve_b, PRICE_SCALE) / r.reserve_a)
        } else {
            None
        },
        k: if r.reserve_a * r.reserve_b > u64::MAX {
            None
        } else {
            Some((r.reserve_a * r.reserve_b) as u64)
        },
        a_per_lp_e6: if r.lp_supply > 0 {
            Some(spec_saturating_mul(r.reserve_a, PRICE_SCALE) / r.lp_supply)
        } else {
            None
        },
        b_per_lp_e6: if r.lp_supply > 0 {
            Some(spec_saturating_mul(r.reserve_b, PRICE_SCALE) / r.lp_supply)
        } else {
            None
        },
    }
}

/// Summarize a pool: spot price, constant product and per-LP backing.
pub fn pool_info(r: &Reserves) -> (info: PoolInfo)
    ensures
        info == spec_pool_info(*r),
        r.reserve_a > 0 ==> info.price_a_to_b_e6 == Some(
            ((if r.reserve_b * 1_000_000 > u64::MAX {
                u64::MAX as int
            } else {
                r.reserve_b * 1_000_000
            }) / (r.reserve_a as int)) as u64,
        ),
        r.reserve_a == 0 ==> info.price_a_to_b_e6 is None,
        info.k == (if r.reserve_a * r.reserve_b <= u64::MAX {
            Some((r.reserve_a * r.reserve_b) as u64)
        } else {
            None
        }),
        r.lp_supply > 0 ==> info.a_per_lp_e6 == Some(
            ((if r.reserve_a * 1_000_000 > u64::MAX {
                u64::MAX as int
            } else {
                r.reserve_a * 1_000_000
            }) / (r.lp_supply as int)) as u64,
        ) && info.b_per_lp_e6 == Some(
            ((if r.reserve_b * 1_000_000 > u64::MAX {
                u64::MAX as int
            } else {
                r.reserve_b * 1_000_000
            }) / (r.lp_supply as int)) as u64,
        ),
        r.lp_supply == 0 ==> info.a_per_lp_e6 is None && info.b_per_lp_e6 is None,
{
    let price_a_to_b_e6 = if r.reserve_a > 0 {
        Some(saturating_mul(r.reserve_b, PRICE_SCALE) / r.reserve_a)
    } else {
        None
    };
    let k = r.reserve_a.checked_mul(r.reserve_b);
    let (a_per_lp_e6, b_per_lp_e6) = if r.lp_supply > 0 {
        (
            Some(saturating_mul(r.reserve_a, PRICE_SCALE) / r.lp_supply),
            Some(saturating_mul(r.reserve_b, PRICE_SCALE) / r.lp_supply),
        )
    } else {
        (None, None)
    };
    PoolInfo { price_a_to_b_e6, k, a_per_lp_e6, b_per_lp_e6 }
}

/// `floor(n / d) * d <= n`.
proof fn lemma_floor_div_times_divisor(n: int, d: int)
    requires
        0 <= n,
        0 < d,
    ensures
        (n / d) * d <= n,
        n / d >= 0,
{
    lemma_fundamental_div_mod(n, d);
    lemma_mod_bound(n, d);
    lemma_div_pos_is_pos(n, d);
    lemma_mul_is_commutative(d, n / d);
}

/// A deposit keeps the pool consistent (tokens are held exactly when LP
/// tokens are outstanding), is fair to existing holders (the reserves backing
/// each LP token do not shrink), and cannot be turned into a profit: burning
/// the freshly minted LP tokens right away pays out at most what was
/// deposited.
pub proof fn lemma_deposit_is_fair(
    r: Reserves,
    token_a_amount: u64,
    token_b_amount: u64,
    min_lp_amount: u64,
)
    requires
        r.is_consistent(),
        token_a_amount > 0,
        token_b_amount > 0,
        spec_quote_add_liquidity(r, token_a_amount, token_b_amount, min_lp_amount) is Ok,
        spec_settle_add_liquidity(
            r,
            token_a_amount,
            token_b_amount,
            spec_quote_add_liquidity(r, token_a_amount, token_b_amount, min_lp_amount)->Ok_0,
        ) is Ok,
    ensures
        ({
            let lp = spec_quote_add_liquidity(
                r,
                token_a_amount,
                token_b_amount,
                min_lp_amount,
            )->Ok_0;
            let r2 = spec_settle_add_liquidity(r, token_a_amount, token_b_amount, lp)->Ok_0;
            &&& r2.is_consistent()
            &&& r2.reserve_a * r.lp_supply >= r.reserve_a * r2.lp_supply
            &&& r2.reserve_b * r.lp_supply >= r.reserve_b * r2.lp_supply
            &&& spec_quote_remove_liquidity(r2, lp, 0, 0) matches Ok((out_a, out_b))
            &&& out_a <= token_a_amount
            &&& out_b <= token_b_amount
        }),
{
    let lp = spec_quote_add_liquidity(r, token_a_amount, token_b_amount, min_lp_amount)->Ok_0;
    let r2 = spec_settle_add_liquidity(r, token_a_amount, token_b_amount, lp)->Ok_0;
    let a = token_a_amount as int;
    let b = token_b_amount as int;
    let ra = r.reserve_a as int;
    let rb = r.reserve_b as int;
    let s = r.lp_supply as int;
    let l = lp as int;
    let s2 = s + l;
    assert(l > 0);
    if s == 0 {
        // First deposit: the deposit is the whole pool.
        assert(ra == 0 && rb == 0);
        lemma_div_multiples_vanish(a, l);
        lemma_div_multiples_vanish(b, l);
        lemma_mul_is_commutative(a, l);
        lemma_mul_is_commutative(b, l);
        lemma_mul_by_zero_is_zero(s2);
        lemma_mul_by_zero_is_zero(a);
        lemma_mul_by_zero_is_zero(b);
        assert(l * (ra + a) / s2 == a);
        assert(l * (rb + b) / s2 == b);
    } else {
        // Later deposit: lp is at most each side's proportional share.
        assert(ra > 0 && rb > 0);
        assert(spec_proportional_lp(token_a_amount, token_b_amount, r.reserve_a, r.reserve_b, r.lp_supply) == Some(lp));
        lemma_mul_nonnegative(a, s);
        lemma_mul_nonnegative(b, s);
        lemma_floor_div_times_divisor(a * s, ra);
        lemma_floor_div_times_divisor(b * s, rb);
        assert(l <= a * s / ra);
        assert(l <= b * s / rb);
        lemma_mul_inequality(l, a * s / ra, ra);
        lemma_mul_inequality(l, b * s / rb, rb);
        assert(l * ra <= a * s);
        assert(l * rb <= b * s);
        // no dilution: (ra + a) * s >= ra * (s + l)
        lemma_mul_is_distributive_add_other_way(s, ra, a);
        lemma_mul_is_distributive_add(ra, s, l);
        lemma_mul_is_commutative(ra, l);
        lemma_mul_is_commutative(a, s);
        lemma_mul_is_distributive_add_other_way(s, rb, b);
        lemma_mul_is_distributive_add(rb, s, l);
        lemma_mul_is_commutative(rb, l);
        lemma_mul_is_commutative(b, s);
        // no profit: l * (ra + a) <= a * (s + l)
        lemma_mul_is_distributive_add(l, ra, a);
        lemma_mul_is_distributive_add(a, s, l);
        lemma_mul_is_commutative(l, a);
        lemma_mul_is_distributive_add(l, rb, b);
        lemma_mul_is_distributive_add(b, s, l);
        lemma_mul_is_commutative(l, b);
        lemma_mul_nonnegative(l, ra + a);
        lemma_mul_nonnegative(l, rb + b);
        lemma_div_is_ordered(l * (ra + a), a * s2, s2);
        lemma_div_is_ordered(l * (rb + b), b * s2, s2);
        lemma_div_multiples_vanish(a, s2);
        lemma_div_multiples_vanish(b, s2);
        lemma_mul_is_commutative(a, s2);
        lemma_mul_is_commutative(b, s2);
        lemma_div_pos_is_pos(l * (ra + a), s2);
        lemma_div_pos_is_pos(l * (rb + b), s2);
        assert(l * (ra + a) / s2 <= a);
        assert(l * (rb + b) / s2 <= b);
    }
}

/// A withdrawal keeps the pool consistent and is fair to the remaining
/// holders: the reserves backing each remaining LP token do not shrink.
pub proof fn lemma_withdrawal_is_fair(
    r: Reserves,
    lp_amount: u64,
    min_token_a: u64,
    min_token_b: u64,
)
    requires
        r.is_consistent(),
        lp_amount > 0,
        spec_quote_remove_liquidity(r, lp_amount, min_token_a, min_token_b) is Ok,
        spec_settle_remove_liquidity(
            r,
            lp_amount,
            spec_quote_remove_liquidity(r, lp_amount, min_token_a, min_token_b)->Ok_0.0,
            spec_quote_remove_liquidity(r, lp_amount, min_token_a, min_token_b)->Ok_0.1,
        ) is Ok,
    ensures
        ({
            let (amount_a, amount_b) = spec_quote_remove_liquidity(
                r,
                lp_amount,
                min_token_a,
                min_token_b,
            )->Ok_0;
            let r2 = spec_settle_remove_liquidity(r, lp_amount, amount_a, amount_b)->Ok_0;
            &&& r2.is_consistent()
            &&& r2.reserve_a * r.lp_supply >= r.reserve_a * r2.lp_supply
            &&& r2.reserve_b * r.lp_supply >= r.reserve_b * r2.lp_supply
        }),
{
    let (amount_a, amount_b) = spec_quote_remove_liquidity(
        r,
        lp_amount,
        min_token_a,
        min_token_b,
    )->Ok_0;
    let ra = r.reserve_a as int;
    let rb = r.reserve_b as int;
    let s = r.lp_supply as int;
    let l = lp_amount as int;
    assert(s > 0);
    assert(l <= s);
    lemma_removal_within_reserves(lp_amount, r.reserve_a, r.reserve_b, r.lp_supply);
    assert(amount_a == l * ra / s);
    assert(amount_b == l * rb / s);
    lemma_mul_nonnegative(l, ra);
    lemma_mul_nonnegative(l, rb);
    lemma_floor_div_times_divisor(l * ra, s);
    lemma_floor_div_times_divisor(l * rb, s);
    // (ra - x) * s >= ra * (s - l)  since  x * s <= l * ra
    lemma_mul_is_distributive_sub_other_way(s, ra, amount_a as int);
    lemma_mul_is_distributive_sub(ra, s, l);
    lemma_mul_is_commutative(ra, l);
    lemma_mul_is_distributive_sub_other_way(s, rb, amount_b as int);
    lemma_mul_is_distributive_sub(rb, s, l);
    lemma_mul_is_commutative(rb, l);
}

/// A swap keeps the pool consistent, leaves the LP supply alone, and never
/// lowers the product of the reserves (x * y = k only grows, by the fee and
/// the rounding).
pub proof fn lemma_swap_keeps_k(
    r: Reserves,
    fee_numerator: u64,
    fee_denominator: u64,
    amount_in: u64,
    min_amount_out: u64,
    a_to_b: bool,
)
    requires
        r.is_consistent(),
        spec_quote_swap(r, fee_numerator, fee_denominator, amount_in, min_amount_out, a_to_b) is Ok,
        spec_settle_swap(
            r,
            amount_in,
            spec_quote_swap(
                r,
                fee_numerator,
                fee_denominator,
                amount_in,
                min_amount_out,
                a_to_b,
            )->Ok_0,
            a_to_b,
        ) is Ok,
    ensures
        ({
            let out = spec_quote_swap(
                r,
                fee_numerator,
                fee_denominator,
                amount_in,
                min_amount_out,
                a_to_b,
            )->Ok_0;
            let r2 = spec_settle_swap(r, amount_in, out, a_to_b)->Ok_0;
            &&& r2.is_consistent()
            &&& r2.lp_supply == r.lp_supply
            &&& r2.reserve_a * r2.reserve_b >= r.reserve_a * r.reserve_b
        }),
{
    let (reserve_in, reserve_out) = swap_sides(r, a_to_b);
    lemma_swap_keeps_constant_product(
        amount_in,
        reserve_in,
        reserve_out,
        fee_numerator,
        fee_denominator,
    );
    lemma_mul_is_commutative(r.reserve_a as int, r.reserve_b as int);
    let out = spec_quote_swap(r, fee_numerator, fee_denominator, amount_in, min_amount_out, a_to_b)->Ok_0;
    lemma_mul_is_commutative((r.reserve_a - out) as int, (r.reserve_b + amount_in) as int);
}

/// Swapping a swap's output straight back returns at most the original
/// input: a round trip through the pool never profits.
pub proof fn lemma_swap_round_trip_no_profit_in_pool(
    r: Reserves,
    fee_numerator: u64,
    fee_denominator: u64,
    amount_in: u64,
    min_amount_out: u64,
    a_to_b: bool,
    min_amount_back: u64,
)
    requires
        spec_quote_swap(r, fee_numerator, fee_denominator, amount_in, min_amount_out, a_to_b) is Ok,
        spec_settle_swap(
            r,
            amount_in,
            spec_quote_swap(
                r,
                fee_numerator,
                fee_denominator,
                amount_in,
                min_amount_out,
                a_to_b,
            )->Ok_0,
            a_to_b,
        ) is Ok,
    ensures
        ({
            let out = spec_quote_swap(
                r,
                fee_numerator,
                fee_denominator,
                amount_in,
                min_amount_out,
                a_to_b,
            )->Ok_0;
            let r2 = spec_settle_swap(r, amount_in, out, a_to_b)->Ok_0;
            spec_quote_swap(r2, fee_numerator, fee_denominator, out, min_amount_back, !a_to_b)
                matches Ok(back) ==> back <= amount_in
        }),
{
    let (reserve_in, reserve_out) = swap_sides(r, a_to_b);
    lemma_swap_round_trip_no_profit(
        amount_in,
        reserve_in,
        reserve_out,
        fee_numerator,
        fee_denominator,
    );
}

} // verus!
