//! AMM arithmetic of a constant-product market maker (x * y = k).
use vstd::prelude::*;
use vstd::arithmetic::div_mod::*;
use vstd::arithmetic::mul::*;

verus! {

/// `r` is the integer square root of `n`: the largest `r` with `r * r <= n`.
pub open spec fn is_floor_sqrt(r: int, n: int) -> bool {
    0 <= r && r * r <= n && n < (r + 1) * (r + 1)
}

/// The integer square root: the largest `r` with `r * r <= n`.
pub open spec fn floor_sqrt(n: nat) -> nat
    decreases n,
{
    if n == 0 {
        0
    } else {
        let r = floor_sqrt((n - 1) as nat);
        if (r + 1) * (r + 1) <= n {
            r + 1
        } else {
            r
        }
    }
}

/// `floor_sqrt(n)` is the integer square root of `n`.
pub proof fn lemma_floor_sqrt_is_root(n: nat)
    ensures
        is_floor_sqrt(floor_sqrt(n) as int, n as int),
    decreases n,
{
    if n == 0 {
        assert(is_floor_sqrt(0, 0)) by (nonlinear_arith);
    } else {
        lemma_floor_sqrt_is_root((n - 1) as nat);
        let r = floor_sqrt((n - 1) as nat) as int;
        if (r + 1) * (r + 1) <= n {
            assert(n < (r + 2) * (r + 2)) by (nonlinear_arith)
                requires
                    n - 1 < (r + 1) * (r + 1),
                    r >= 0,
            {
            }
        }
    }
}

/// The integer square root is unique.
pub proof fn lemma_floor_sqrt_unique(r: int, n: nat)
    requires
        is_floor_sqrt(r, n as int),
    ensures
        r == floor_sqrt(n),
{
    lemma_floor_sqrt_is_root(n);
    let t = floor_sqrt(n) as int;
    if r < t {
        assert((r + 1) * (r + 1) <= t * t) by (nonlinear_arith)
            requires
                0 <= r < t,
        {
        }
    } else if t < r {
        assert((t + 1) * (t + 1) <= r * r) by (nonlinear_arith)
            requires
                0 <= t < r,
        {
        }
    }
}

/// One Newton step `(x + n / x) / 2` never falls below any `s` with `s * s <= n`.
proof fn lemma_newton_step_above_root(n: int, x: int, s: int)
    requires
        x >= 1,
        s >= 0,
        s * s <= n,
    ensures
        (x + n / x) / 2 >= s,
{
    let q = n / x;
    let r = n % x;
    lemma_fundamental_div_mod(n, x);
    lemma_mod_bound(n, x);
    assert(n == x * q + r);
    assert(x * x + n >= 2 * s * x) by (nonlinear_arith)
        requires
            s * s <= n,
    {
        assert((x - s) * (x - s) >= 0);
    }
    assert(x * (x + q + 1) > x * (2 * s)) by (nonlinear_arith)
        requires
            x * x + n >= 2 * s * x,
            n == x * q + r,
            r < x,
    {
    }
    assert(x + q + 1 > 2 * s) by (nonlinear_arith)
        requires
            x * (x + q + 1) > x * (2 * s),
            x >= 1,
    {
    }
}

/// When a Newton step does not go down, `x` is at most the square root.
proof fn lemma_newton_step_stalls_below_root(n: int, x: int)
    requires
        x >= 1,
        n >= 0,
        (x + n / x) / 2 >= x,
    ensures
        x * x <= n,
{
    let q = n / x;
    lemma_fundamental_div_mod(n, x);
    lemma_mod_bound(n, x);
    if x * x > n {
        assert(x * q < x * x) by (nonlinear_arith)
            requires
                n == x * q + n % x,
                n % x >= 0,
                x * x > n,
        {
        }
        assert(q < x) by (nonlinear_arith)
            requires
                x * q < x * x,
                x >= 1,
        {
        }
    }
}

/// For `1 <= x <= n`, the Newton sum `x + n / x` is at most `n + 1`.
proof fn lemma_newton_sum_bound(n: int, x: int)
    requires
        1 <= x <= n,
    ensures
        x + n / x <= n + 1,
        n / x >= 1,
{
    let q = n / x;
    lemma_fundamental_div_mod(n, x);
    lemma_mod_bound(n, x);
    lemma_div_is_ordered(x, n, x);
    lemma_div_basics(x);
    assert(x * q <= n);
    assert(x + q <= x * q + 1) by (nonlinear_arith)
        requires
            x >= 1,
            q >= 1,
    {
        assert((x - 1) * (q - 1) >= 0);
    }
}

/// Integer square root by Newton's (Babylonian) method.
///
/// Returns the largest `r` with `r * r <= n`.
pub fn integer_sqrt(n: u128) -> (r: u128)
    requires
        n < u128::MAX,
    ensures
        r == floor_sqrt(n as nat),
        r * r <= n,
        n < (r + 1) * (r + 1),
{
    if n == 0 {
        assert(0 * 0 <= 0 < 1 * 1) by (nonlinear_arith);
        return 0;
    }
    let mut x = n;
    let mut y = (x + 1) / 2;
    proof {
        lemma_div_basics(n as int);
        assert((n as int) < (n + 1) * (n + 1)) by (nonlinear_arith)
            requires
                n >= 1,
        {
        }
    }
    while y < x
        invariant
            1 <= x <= n,
            n < u128::MAX,
            (n as int) < (x + 1) * (x + 1),
            y as int == (x + n / x) / 2,
        decreases x,
    {
        proof {
            lemma_newton_step_above_root(n as int, x as int, 1);
            let s = y as int + 1;
            if s * s <= n as int {
                lemma_newton_step_above_root(n as int, x as int, s);
            }
        }
        x = y;
        proof {
            lemma_newton_sum_bound(n as int, x as int);
        }
        y = (x + n / x) / 2;
    }
    proof {
        lemma_newton_step_stalls_below_root(n as int, x as int);
        lemma_floor_sqrt_unique(x as int, n as nat);
        lemma_floor_sqrt_is_root(n as nat);
    }
    x
}

/// The swap quote of the constant-product curve with a fee of
/// `fee_numerator / fee_denominator`:
///
///   out = reserve_out * amount_in * f / (reserve_in * fee_denominator + amount_in * f)
///
/// rounded down, where `f = fee_denominator - fee_numerator`. There is no quote
/// when an amount, a reserve or the fee denominator is zero, when the fee is
/// above 100%, or when a 128-bit intermediate product would overflow.
pub open spec fn spec_swap_output(
    amount_in: u64,
    reserve_in: u64,
    reserve_out: u64,
    fee_numerator: u64,
    fee_denominator: u64,
) -> Option<u64> {
    if reserve_in == 0 || reserve_out == 0 || amount_in == 0 || fee_denominator == 0
        || fee_numerator > fee_denominator {
        None
    } else {
        let fee_factor = fee_denominator - fee_numerator;
        let numerator = reserve_out * amount_in * fee_factor;
        let denominator = reserve_in * fee_denominator + amount_in * fee_factor;
        if numerator > u128::MAX || denominator > u128::MAX {
            None
        } else {
            Some((numerator / denominator) as u64)
        }
    }
}

/// A quoted swap never drains the output reserve, and the product of the
/// reserves (k = x * y) does not decrease once the input is added and the
/// output taken out.
pub proof fn lemma_swap_keeps_constant_product(
    amount_in: u64,
    reserve_in: u64,
    reserve_out: u64,
    fee_numerator: u64,
    fee_denominator: u64,
)
    requires
        spec_swap_output(amount_in, reserve_in, reserve_out, fee_numerator, fee_denominator) is Some,
    ensures
        ({
            let out = spec_swap_output(
                amount_in,
                reserve_in,
                reserve_out,
                fee_numerator,
                fee_denominator,
            ).unwrap();
            let fee_factor = fee_denominator - fee_numerator;
            &&& (reserve_out * amount_in * fee_factor) / (reserve_in * fee_denominator + amount_in
                * fee_factor) < reserve_out
            &&& out < reserve_out
            &&& (reserve_in + amount_in) * (reserve_out - out) >= reserve_in * reserve_out
        }),
{
    let a = amount_in as int;
    let ri = reserve_in as int;
    let ro = reserve_out as int;
    let d = fee_denominator as int;
    let f = (fee_denominator - fee_numerator) as int;
    let af = a * f;
    let rid = ri * d;
    let num = ro * a * f;
    let den = rid + af;
    lemma_mul_strictly_positive(ri, d);
    lemma_mul_nonnegative(a, f);
    lemma_mul_is_associative(ro, a, f);
    assert(num == ro * af);
    lemma_mul_nonnegative(ro, af);
    let q = num / den;
    lemma_fundamental_div_mod(num, den);
    lemma_mod_bound(num, den);
    lemma_div_pos_is_pos(num, den);
    lemma_mul_is_commutative(den, q);
    assert(q * den <= num);
    // q < ro: otherwise q * den >= ro * den = ro * rid + ro * af > num.
    lemma_mul_is_distributive_add(ro, rid, af);
    lemma_mul_strictly_positive(ro, rid);
    if q >= ro {
        lemma_mul_inequality(ro, q, den);
        lemma_mul_is_commutative(ro, den);
        lemma_mul_is_commutative(q, den);
        assert(false);
    }
    // q * (ri + a) <= ro * a
    if f == 0 {
        lemma_mul_by_zero_is_zero(a);
        assert(af == 0);
        assert(num == 0);
        assert(q == 0) by (nonlinear_arith)
            requires
                q * den <= 0,
                den > 0,
                q >= 0,
        {
        }
        lemma_mul_by_zero_is_zero(ri + a);
        assert(q * (ri + a) == 0);
        lemma_mul_nonnegative(ro, a);
    } else {
        lemma_mul_is_distributive_add(q, rid, af);
        lemma_mul_is_associative(q, ri, d);
        lemma_mul_is_associative(q, ri, f);
        lemma_mul_is_associative(q, a, f);
        lemma_mul_nonnegative(q, ri);
        lemma_mul_inequality(f, d, q * ri);
        lemma_mul_is_commutative(f, q * ri);
        lemma_mul_is_commutative(d, q * ri);
        assert(q * ri * f <= q * ri * d);
        lemma_mul_is_distributive_add_other_way(f, q * ri, q * a);
        lemma_mul_is_distributive_add(q, ri, a);
        lemma_mul_is_associative(ro, a, f);
        assert((q * (ri + a)) * f <= (ro * a) * f);
        assert(q * (ri + a) <= ro * a) by (nonlinear_arith)
            requires
                (q * (ri + a)) * f <= (ro * a) * f,
                f > 0,
        {
        }
    }
    assert((ri + a) * (ro - q) >= ri * ro) by (nonlinear_arith)
        requires
            q * (ri + a) <= ro * a,
    {
    }
}

/// Swapping the output of a swap straight back through the pool it left
/// returns at most the original input: a round trip never profits.
pub proof fn lemma_swap_round_trip_no_profit(
    amount_in: u64,
    reserve_in: u64,
    reserve_out: u64,
    fee_numerator: u64,
    fee_denominator: u64,
)
    requires
        spec_swap_output(amount_in, reserve_in, reserve_out, fee_numerator, fee_denominator) is Some,
        reserve_in + amount_in <= u64::MAX,
    ensures
        ({
            let out = spec_swap_output(
                amount_in,
                reserve_in,
                reserve_out,
                fee_numerator,
                fee_denominator,
            ).unwrap();
            spec_swap_output(
                out,
                (reserve_out - out) as u64,
                (reserve_in + amount_in) as u64,
                fee_numerator,
                fee_denominator,
            ) matches Some(back) ==> back <= amount_in
        }),
{
    lemma_swap_keeps_constant_product(
        amount_in,
        reserve_in,
        reserve_out,
        fee_numerator,
        fee_denominator,
    );
    let out = spec_swap_output(amount_in, reserve_in, reserve_out, fee_numerator, fee_denominator).unwrap();
    let ri2 = (reserve_out - out) as u64;
    let ro2 = (reserve_in + amount_in) as u64;
    if let Some(back) = spec_swap_output(out, ri2, ro2, fee_numerator, fee_denominator) {
        lemma_swap_keeps_constant_product(out, ri2, ro2, fee_numerator, fee_denominator);
        let a = amount_in as int;
        let ri = reserve_in as int;
        let ro = reserve_out as int;
        let o = out as int;
        let d = fee_denominator as int;
        let f = (fee_denominator - fee_numerator) as int;
        let b = back as int;
        // First leg: o * (ri + a) <= ro * a.
        assert(o * (ri + a) <= ro * a) by (nonlinear_arith)
            requires
                (ri + a) * (ro - o) >= ri * ro,
        {
        }
        // Second leg: b * ((ro - o) * d + o * f) <= (ri + a) * o * f.
        let num = (ri + a) * o * f;
        let den = (ro - o) * d + o * f;
        assert(o > 0 && ro - o > 0 && d > 0);
        lemma_mul_strictly_positive(ro - o, d);
        lemma_mul_nonnegative(o, f);
        lemma_mul_nonnegative(ri + a, o);
        lemma_mul_nonnegative((ri + a) * o, f);
        lemma_fundamental_div_mod(num, den);
        lemma_mod_bound(num, den);
        lemma_div_pos_is_pos(num, den);
        assert(b == num / den);
        assert(b * den <= num) by (nonlinear_arith)
            requires
                num == den * (num / den) + num % den,
                num % den >= 0,
                b == num / den,
        {
        }
        if f == 0 {
            assert(num == 0) by (nonlinear_arith)
                requires
                    num == (ri + a) * o * f,
                    f == 0,
            {
            }
            assert(b == 0) by (nonlinear_arith)
                requires
                    b * den <= 0,
                    den > 0,
                    b >= 0,
            {
            }
        } else {
            // den >= ro * f because d >= f.
            assert(den >= ro * f) by (nonlinear_arith)
                requires
                    den == (ro - o) * d + o * f,
                    d >= f,
                    ro - o > 0,
            {
            }
            assert(b * ro * f <= (ri + a) * o * f) by (nonlinear_arith)
                requires
                    b * den <= num,
                    num == (ri + a) * o * f,
                    den >= ro * f,
                    b >= 0,
            {
            }
            assert(b * ro <= (ri + a) * o) by (nonlinear_arith)
                requires
                    b * ro * f <= (ri + a) * o * f,
                    f > 0,
            {
            }
            assert(b <= a) by (nonlinear_arith)
                requires
                    b * ro <= (ri + a) * o,
                    o * (ri + a) <= ro * a,
                    ro > 0,
            {
            }
        }
    }
}

/// The product of two 64-bit values fits in 128 bits.
proof fn lemma_u64_products_fit_u128(x: u64, y: u64)
    ensures
        0 <= x * y <= 0xffff_ffff_ffff_fffe_0000_0000_0000_0001,
{
    lemma_mul_nonnegative(x as int, y as int);
    lemma_mul_upper_bound(x as int, u64::MAX as int, y as int, u64::MAX as int);
}

/// A swap quote exists whenever the inputs are positive, the fee is at most
/// 100% and the 128-bit intermediates do not overflow: it is the exact
/// fee-adjusted constant-product output, rounded down, and it always fits in
/// 64 bits (it is below the output reserve). Otherwise there is none.
pub proof fn lemma_swap_output_defined(
    amount_in: u64,
    reserve_in: u64,
    reserve_out: u64,
    fee_numerator: u64,
    fee_denominator: u64,
)
    ensures
        amount_in > 0 && reserve_in > 0 && reserve_out > 0 && fee_denominator > 0 && fee_numerator
            <= fee_denominator && reserve_out * amount_in * (fee_denominator - fee_numerator)
            <= u128::MAX && reserve_in * fee_denominator + amount_in * (fee_denominator
            - fee_numerator) <= u128::MAX ==> {
            &&& spec_swap_output(amount_in, reserve_in, reserve_out, fee_numerator, fee_denominator)
                == Some(
                ((reserve_out * amount_in * (fee_denominator - fee_numerator)) / (reserve_in
                    * fee_denominator + amount_in * (fee_denominator - fee_numerator))) as u64,
            )
            &&& (reserve_out * amount_in * (fee_denominator - fee_numerator)) / (reserve_in
                * fee_denominator + amount_in * (fee_denominator - fee_numerator)) < reserve_out
        },
        amount_in == 0 || reserve_in == 0 || reserve_out == 0 || fee_denominator == 0
            || fee_numerator > fee_denominator ==> spec_swap_output(
            amount_in,
            reserve_in,
            reserve_out,
            fee_numerator,
            fee_denominator,
        ) is None,
{
    if spec_swap_output(amount_in, reserve_in, reserve_out, fee_numerator, fee_denominator) is Some {
        lemma_swap_keeps_constant_product(
            amount_in,
            reserve_in,
            reserve_out,
            fee_numerator,
            fee_denominator,
        );
    }
}

/// Output amount of a swap, by the constant-product formula with a fee.
///
/// Formula (with fee):
///   amount_out = (reserve_out * amount_in * fee_factor) /
///                (reserve_in * fee_denominator + amount_in * fee_factor)
///
/// where fee_factor = fee_denominator - fee_numerator.
/// Example: a 0.3% fee is fee_numerator = 3, fee_denominator = 1000.
pub fn swap_output(
    amount_in: u64,
    reserve_in: u64,
    reserve_out: u64,
    fee_numerator: u64,
    fee_denominator: u64,
) -> (out: Option<u64>)
    ensures
        out == spec_swap_output(amount_in, reserve_in, reserve_out, fee_numerator, fee_denominator),
        out matches Some(o) ==> o < reserve_out,
        out matches Some(o) ==> (reserve_in + amount_in) * (reserve_out - o) >= reserve_in
            * reserve_out,
        amount_in > 0 && reserve_in > 0 && reserve_out > 0 && fee_denominator > 0 && fee_numerator
            <= fee_denominator && reserve_out * amount_in * (fee_denominator - fee_numerator)
            <= u128::MAX && reserve_in * fee_denominator + amount_in * (fee_denominator
            - fee_numerator) <= u128::MAX ==> out == Some(
            ((reserve_out * amount_in * (fee_denominator - fee_numerator)) / (reserve_in
                * fee_denominator + amount_in * (fee_denominator - fee_numerator))) as u64,
        ),
{
    proof {
        lemma_swap_output_defined(
            amount_in,
            reserve_in,
            reserve_out,
            fee_numerator,
            fee_denominator,
        );
    }
    if reserve_in == 0 || reserve_out == 0 || amount_in == 0 || fee_denominator == 0 {
        return None;
    }
    let fee_factor = fee_denominator.checked_sub(fee_numerator)?;
    proof {
        lemma_u64_products_fit_u128(reserve_out, amount_in);
        lemma_u64_products_fit_u128(amount_in, fee_factor);
        lemma_u64_products_fit_u128(reserve_in, fee_denominator);
        lemma_mul_strictly_positive(reserve_in as int, fee_denominator as int);
        lemma_mul_nonnegative(amount_in as int, fee_factor as int);
    }
    let numerator = (reserve_out as u128).checked_mul(amount_in as u128)?.checked_mul(
        fee_factor as u128,
    )?;
    let denominator = (reserve_in as u128).checked_mul(fee_denominator as u128)?.checked_add(
        (amount_in as u128).checked_mul(fee_factor as u128)?,
    )?;
    if denominator == 0 {
        return None;
    }
    let amount_out = numerator.checked_div(denominator)?;
    proof {
        lemma_swap_keeps_constant_product(
            amount_in,
            reserve_in,
            reserve_out,
            fee_numerator,
            fee_denominator,
        );
    }
    if amount_out > u64::MAX as u128 {
        return None;
    }
    Some(amount_out as u64)
}

/// LP tokens for a deposit into a pool that already has LP supply: the smaller
/// of the two deposit shares `amount * total_supply / reserve`, rounded down.
/// There is none when a reserve is zero or the share exceeds 64 bits.
pub open spec fn spec_proportional_lp(
    token_a_amount: u64,
    token_b_amount: u64,
    reserve_a: u64,
    reserve_b: u64,
    total_supply: u64,
) -> Option<u64> {
    if reserve_a == 0 || reserve_b == 0 {
        None
    } else {
        let lp_a = token_a_amount * total_supply / (reserve_a as int);
        let lp_b = token_b_amount * total_supply / (reserve_b as int);
        let lp = if lp_a <= lp_b {
            lp_a
        } else {
            lp_b
        };
        if lp > u64::MAX {
            None
        } else {
            Some(lp as u64)
        }
    }
}

/// LP tokens minted for a deposit: the geometric mean `floor(sqrt(a * b))` for
/// the first deposit (no LP supply yet), the proportional share otherwise.
pub open spec fn spec_calculate_lp_tokens(
    token_a_amount: u64,
    token_b_amount: u64,
    reserve_a: u64,
    reserve_b: u64,
    total_supply: u64,
) -> Option<u64> {
    if total_supply == 0 {
        let lp = floor_sqrt((token_a_amount * token_b_amount) as nat);
        if lp > u64::MAX {
            None
        } else {
            Some(lp as u64)
        }
    } else {
        spec_proportional_lp(token_a_amount, token_b_amount, reserve_a, reserve_b, total_supply)
    }
}

/// LP minting in terms of the inputs: the first deposit always mints the
/// integer square root of the product of the amounts; a later deposit into a
/// pool with both reserves positive mints the smaller of the two shares
/// `amount * total_supply / reserve` (rounded down) whenever it fits in 64
/// bits, and nothing can be minted when a reserve is empty or the share does
/// not fit.
pub proof fn lemma_lp_tokens_defined(
    token_a_amount: u64,
    token_b_amount: u64,
    reserve_a: u64,
    reserve_b: u64,
    total_supply: u64,
)
    ensures
        total_supply == 0 ==> (spec_calculate_lp_tokens(
            token_a_amount,
            token_b_amount,
            reserve_a,
            reserve_b,
            total_supply,
        ) matches Some(lp) && lp * lp <= token_a_amount * token_b_amount && token_a_amount
            * token_b_amount < (lp + 1) * (lp + 1)),
        total_supply > 0 && reserve_a > 0 && reserve_b > 0 && token_a_amount * total_supply
            / (reserve_a as int) <= token_b_amount * total_supply / (reserve_b as int)
            && token_a_amount * total_supply / (reserve_a as int) <= u64::MAX
            ==> spec_calculate_lp_tokens(
            token_a_amount,
            token_b_amount,
            reserve_a,
            reserve_b,
            total_supply,
        ) == Some((token_a_amount * total_supply / (reserve_a as int)) as u64),
        total_supply > 0 && reserve_a > 0 && reserve_b > 0 && token_b_amount * total_supply
            / (reserve_b as int) <= token_a_amount * total_supply / (reserve_a as int)
            && token_b_amount * total_supply / (reserve_b as int) <= u64::MAX
            ==> spec_calculate_lp_tokens(
            token_a_amount,
            token_b_amount,
            reserve_a,
            reserve_b,
            total_supply,
        ) == Some((token_b_amount * total_supply / (reserve_b as int)) as u64),
        total_supply > 0 && (reserve_a == 0 || reserve_b == 0) ==> spec_calculate_lp_tokens(
            token_a_amount,
            token_b_amount,
            reserve_a,
            reserve_b,
            total_supply,
        ) is None,
{
    if total_supply == 0 {
        let n = (token_a_amount * token_b_amount) as nat;
        lemma_u64_products_fit_u128(token_a_amount, token_b_amount);
        lemma_floor_sqrt_is_root(n);
        let r = floor_sqrt(n) as int;
        let m = u64::MAX as int;
        if r > m {
            lemma_mul_strict_inequality(m, r, m);
            lemma_mul_strict_inequality(m, r, r);
            lemma_mul_is_commutative(m, r);
            lemma_mul_upper_bound(
                token_a_amount as int,
                m,
                token_b_amount as int,
                m,
            );
        }
    }
}

/// Calculate the LP tokens to mint when adding liquidity.
///
/// - First deposit: LP = floor(sqrt(amount_a * amount_b))  (geometric mean)
/// - Subsequent:    LP = min(amount_a * total_supply / reserve_a,
///                           amount_b * total_supply / reserve_b)
pub fn calculate_lp_tokens(
    token_a_amount: u64,
    token_b_amount: u64,
    reserve_a: u64,
    reserve_b: u64,
    total_supply: u64,
) -> (lp: Option<u64>)
    ensures
        lp == spec_calculate_lp_tokens(
            token_a_amount,
            token_b_amount,
            reserve_a,
            reserve_b,
            total_supply,
        ),
        total_supply == 0 ==> lp is Some,
        total_supply == 0 ==> (lp matches Some(l) && l * l <= token_a_amount * token_b_amount
            && token_a_amount * token_b_amount < (l + 1) * (l + 1)),
        total_supply > 0 && reserve_a > 0 && reserve_b > 0 && token_a_amount * total_supply
            / (reserve_a as int) <= token_b_amount * total_supply / (reserve_b as int)
            && token_a_amount * total_supply / (reserve_a as int) <= u64::MAX ==> lp == Some(
            (token_a_amount * total_supply / (reserve_a as int)) as u64,
        ),
        total_supply > 0 && reserve_a > 0 && reserve_b > 0 && token_b_amount * total_supply
            / (reserve_b as int) <= token_a_amount * total_supply / (reserve_a as int)
            && token_b_amount * total_supply / (reserve_b as int) <= u64::MAX ==> lp == Some(
            (token_b_amount * total_supply / (reserve_b as int)) as u64,
        ),
{
    proof {
        lemma_lp_tokens_defined(token_a_amount, token_b_amount, reserve_a, reserve_b, total_supply);
    }
    if total_supply == 0 {
        proof {
            lemma_u64_products_fit_u128(token_a_amount, token_b_amount);
        }
        let product = (token_a_amount as u128).checked_mul(token_b_amount as u128)?;
        let lp = integer_sqrt(product);
        proof {
            lemma_floor_sqrt_is_root(product as nat);
            let m = u64::MAX as int;
            if lp > m {
                lemma_mul_strict_inequality(m, lp as int, m);
                lemma_mul_strict_inequality(m, lp as int, lp as int);
                lemma_mul_is_commutative(m, lp as int);
            }
        }
        if lp > u64::MAX as u128 {
            return None;
        }
        Some(lp as u64)
    } else {
        if reserve_a == 0 || reserve_b == 0 {
            return None;
        }
        proof {
            lemma_u64_products_fit_u128(token_a_amount, total_supply);
            lemma_u64_products_fit_u128(token_b_amount, total_supply);
        }
        let lp_a = (token_a_amount as u128).checked_mul(total_supply as u128)?.checked_div(
            reserve_a as u128,
        )?;
        let lp_b = (token_b_amount as u128).checked_mul(total_supply as u128)?.checked_div(
            reserve_b as u128,
        )?;
        let lp = if lp_a <= lp_b {
            lp_a
        } else {
            lp_b
        };
        if lp > u64::MAX as u128 {
            return None;
        }
        Some(lp as u64)
    }
}

/// Amounts of tokens A and B paid out for burning `lp_amount` LP tokens:
/// `lp_amount * reserve / total_supply` for each side, rounded down. There are
/// none when the LP supply is zero or an amount exceeds 64 bits.
pub open spec fn spec_calculate_removal_amounts(
    lp_amount: u64,
    reserve_a: u64,
    reserve_b: u64,
    total_supply: u64,
) -> Option<(u64, u64)> {
    if total_supply == 0 {
        None
    } else {
        let amount_a = lp_amount * reserve_a / (total_supply as int);
        let amount_b = lp_amount * reserve_b / (total_supply as int);
        if amount_a > u64::MAX || amount_b > u64::MAX {
            None
        } else {
            Some((amount_a as u64, amount_b as u64))
        }
    }
}

/// Burning at most the whole LP supply pays out at most the reserves, and
/// burning the whole supply pays out exactly the reserves.
pub proof fn lemma_removal_within_reserves(
    lp_amount: u64,
    reserve_a: u64,
    reserve_b: u64,
    total_supply: u64,
)
    requires
        0 < total_supply,
        lp_amount <= total_supply,
    ensures
        spec_calculate_removal_amounts(lp_amount, reserve_a, reserve_b, total_supply) matches Some(
            (amount_a, amount_b),
        ) && amount_a <= reserve_a && amount_b <= reserve_b,
        lp_amount == total_supply ==> spec_calculate_removal_amounts(
            lp_amount,
            reserve_a,
            reserve_b,
            total_supply,
        ) == Some((reserve_a, reserve_b)),
        lp_amount < total_supply && reserve_a > 0 ==> lp_amount * reserve_a / (total_supply as int)
            < reserve_a,
        lp_amount < total_supply && reserve_b > 0 ==> lp_amount * reserve_b / (total_supply as int)
            < reserve_b,
{
    lemma_share_below_whole(lp_amount as int, reserve_a as int, total_supply as int);
    lemma_share_below_whole(lp_amount as int, reserve_b as int, total_supply as int);
}

/// `floor(part * whole / total)` is at most `whole` when `part <= total`,
/// equal to it when `part == total`, and below it when `part < total` and
/// `whole > 0`.
proof fn lemma_share_below_whole(part: int, whole: int, total: int)
    requires
        0 <= part <= total,
        0 < total,
        0 <= whole,
    ensures
        0 <= part * whole / total <= whole,
        part == total ==> part * whole / total == whole,
        part < total && whole > 0 ==> part * whole / total < whole,
{
    lemma_mul_nonnegative(part, whole);
    lemma_div_pos_is_pos(part * whole, total);
    lemma_mul_inequality(part, total, whole);
    lemma_mul_is_commutative(total, whole);
    lemma_div_is_ordered(part * whole, total * whole, total);
    lemma_div_multiples_vanish(whole, total);
    if part < total && whole > 0 {
        lemma_fundamental_div_mod(part * whole, total);
        lemma_mod_bound(part * whole, total);
        let q = part * whole / total;
        if q >= whole {
            lemma_mul_inequality(whole, q, total);
            lemma_mul_strict_inequality(part, total, whole);
            assert(false);
        }
    }
}

/// Withdrawal amounts in terms of the inputs: with LP supply, burning
/// `lp_amount` pays `lp_amount * reserve / total_supply` of each token,
/// rounded down, whenever both fit in 64 bits; without LP supply nothing is paid.
pub proof fn lemma_removal_amounts_defined(
    lp_amount: u64,
    reserve_a: u64,
    reserve_b: u64,
    total_supply: u64,
)
    ensures
        total_supply > 0 && lp_amount * reserve_a / (total_supply as int) <= u64::MAX && lp_amount
            * reserve_b / (total_supply as int) <= u64::MAX ==> spec_calculate_removal_amounts(
            lp_amount,
            reserve_a,
            reserve_b,
            total_supply,
        ) == Some(
            (
                (lp_amount * reserve_a / (total_supply as int)) as u64,
                (lp_amount * reserve_b / (total_supply as int)) as u64,
            ),
        ),
        total_supply == 0 ==> spec_calculate_removal_amounts(
            lp_amount,
            reserve_a,
            reserve_b,
            total_supply,
        ) is None,
{
}

/// Calculate how many tokens A and B to return when removing liquidity.
///
///   amount_a = lp_amount * reserve_a / (total_supply as int)
///   amount_b = lp_amount * reserve_b / (total_supply as int)
pub fn calculate_removal_amounts(
    lp_amount: u64,
    reserve_a: u64,
    reserve_b: u64,
    total_supply: u64,
) -> (amounts: Option<(u64, u64)>)
    ensures
        amounts == spec_calculate_removal_amounts(lp_amount, reserve_a, reserve_b, total_supply),
        0 < total_supply && lp_amount <= total_supply ==> (amounts matches Some((a, b)) && a
            <= reserve_a && b <= reserve_b),
        total_supply > 0 && lp_amount * reserve_a / (total_supply as int) <= u64::MAX && lp_amount
            * reserve_b / (total_supply as int) <= u64::MAX ==> amounts == Some(
            (
                (lp_amount * reserve_a / (total_supply as int)) as u64,
                (lp_amount * reserve_b / (total_supply as int)) as u64,
            ),
        ),
{
    proof {
        lemma_removal_amounts_defined(lp_amount, reserve_a, reserve_b, total_supply);
    }
    if total_supply == 0 {
        return None;
    }
    proof {
        lemma_u64_products_fit_u128(lp_amount, reserve_a);
        lemma_u64_products_fit_u128(lp_amount, reserve_b);
        if lp_amount <= total_supply {
            lemma_removal_within_reserves(lp_amount, reserve_a, reserve_b, total_supply);
        }
    }
    let amount_a = (lp_amount as u128).checked_mul(reserve_a as u128)?.checked_div(
        total_supply as u128,
    )?;
    let amount_b = (lp_amount as u128).checked_mul(reserve_b as u128)?.checked_div(
        total_supply as u128,
    )?;
    if amount_a > u64::MAX as u128 || amount_b > u64::MAX as u128 {
        return None;
    }
    Some((amount_a as u64, amount_b as u64))
}

} // verus!
