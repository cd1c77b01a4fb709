//! The decisions of the Anchor version of the program.
//!
//! Anchor checks the accounts and moves the tokens; these functions decide
//! the rest of each instruction: the checks and refusals in their order, the
//! amounts that move, and the pool afterwards. An instruction that moves
//! tokens is decided in two steps, before and after the transfers.
pub mod error;
pub mod math;
pub mod state;

use vstd::prelude::*;
use crate::amm::{
    lemma_deposit_is_fair, lemma_swap_keeps_k, lemma_withdrawal_is_fair, pool_info,
    quote_add_liquidity, quote_remove_liquidity, quote_swap, settle_add_liquidity,
    settle_remove_liquidity, settle_swap, spec_pool_info, spec_quote_add_liquidity,
    spec_quote_remove_liquidity, spec_quote_swap, spec_settle_add_liquidity,
    spec_settle_remove_liquidity, spec_settle_swap, AmmError, PoolInfo, Reserves,
};
use crate::processor::keys_equal;
use self::error::DexError;
use self::state::Pool;

verus! {

/// The program's error for a refusal of the pool rules.
pub open spec fn spec_dex_error(e: AmmError) -> DexError {
    match e {
        AmmError::ZeroAmount => DexError::ZeroAmount,
        AmmError::InsufficientLiquidity => DexError::InsufficientLiquidity,
        AmmError::SlippageExceeded => DexError::SlippageExceeded,
        AmmError::Overflow => DexError::Overflow,
    }
}

/// The program's error for a refusal of the pool rules.
pub fn dex_error(e: AmmError) -> (d: DexError)
    ensures
        d == spec_dex_error(e),
{
    match e {
        AmmError::ZeroAmount => DexError::ZeroAmount,
        AmmError::InsufficientLiquidity => DexError::InsufficientLiquidity,
        AmmError::SlippageExceeded => DexError::SlippageExceeded,
        AmmError::Overflow => DexError::Overflow,
    }
}

/// A settlement of the pool rules, as the pool afterwards.
pub open spec fn spec_settled(pool: Pool, settled: Result<Reserves, AmmError>) -> Result<
    Pool,
    DexError,
> {
    match settled {
        Ok(r) => Ok(pool.spec_with_reserves(r)),
        Err(e) => Err(spec_dex_error(e)),
    }
}

/// The keys a new pool records.
#[derive(Debug, Clone, Copy, PartialEq, Eq)]
pub struct PoolKeys {
    pub token_a_mint: [u8; 32],
    pub token_b_mint: [u8; 32],
    pub token_a_vault: [u8; 32],
    pub token_b_vault: [u8; 32],
    pub lp_mint: [u8; 32],
}

/// The accounts an instruction names are the ones the pool records: both
/// mints, both vaults and the LP mint.
pub open spec fn pool_keys_match(pool: Pool, keys: PoolKeys) -> bool {
    &&& keys.token_a_mint@ == pool.token_a_mint@
    &&& keys.token_b_mint@ == pool.token_b_mint@
    &&& keys.token_a_vault@ == pool.token_a_vault@
    &&& keys.token_b_vault@ == pool.token_b_vault@
    &&& keys.lp_mint@ == pool.lp_mint@
}

/// Whether the accounts an instruction names are the ones the pool records.
pub fn check_pool_keys(pool: &Pool, keys: &PoolKeys) -> (ok: bool)
    ensures
        ok == pool_keys_match(*pool, *keys),
{
    keys_equal(&keys.token_a_mint, &pool.token_a_mint) && keys_equal(
        &keys.token_b_mint,
        &pool.token_b_mint,
    ) && keys_equal(&keys.token_a_vault, &pool.token_a_vault) && keys_equal(
        &keys.token_b_vault,
        &pool.token_b_vault,
    ) && keys_equal(&keys.lp_mint, &pool.lp_mint)
}

/// The keys of the mints and pool vaults a swap names.
#[derive(Debug, Clone, Copy, PartialEq, Eq)]
pub struct SwapKeys {
    pub token_a_mint: [u8; 32],
    pub token_b_mint: [u8; 32],
    /// The pool vault that receives the input.
    pub pool_source_vault: [u8; 32],
    /// The pool vault that pays the output.
    pub pool_dest_vault: [u8; 32],
}

/// The mints of a swap are the pool's, and its vaults are the pool's for the
/// direction: the input side's vault receives, the output side's vault pays.
pub open spec fn swap_keys_match(pool: Pool, keys: SwapKeys, a_to_b: bool) -> bool {
    &&& keys.token_a_mint@ == pool.token_a_mint@
    &&& keys.token_b_mint@ == pool.token_b_mint@
    &&& if a_to_b {
        &&& keys.pool_source_vault@ == pool.token_a_vault@
        &&& keys.pool_dest_vault@ == pool.token_b_vault@
    } else {
        &&& keys.pool_source_vault@ == pool.token_b_vault@
        &&& keys.pool_dest_vault@ == pool.token_a_vault@
    }
}

/// `initialize_pool`: refused with `InvalidFee` unless the fee denominator
/// is positive and the numerator below it; otherwise the empty pool with the
/// given keys, fee and the pool authority's bump.
pub fn initialize_pool(keys: &PoolKeys, fee_numerator: u64, fee_denominator: u64, bump: u8) -> (res:
    Result<Pool, DexError>)
    ensures
        res == (if fee_denominator > 0 && fee_numerator < fee_denominator {
            Ok(
                Pool {
                    token_a_mint: keys.token_a_mint,
                    token_b_mint: keys.token_b_mint,
                    token_a_vault: keys.token_a_vault,
                    token_b_vault: keys.token_b_vault,
                    lp_mint: keys.lp_mint,
                    reserve_a: 0,
                    reserve_b: 0,
                    lp_supply: 0,
                    fee_numerator,
                    fee_denominator,
                    bump,
                },
            )
        } else {
            Err(DexError::InvalidFee)
        }),
        res matches Ok(pool) ==> pool.is_valid(),
        res is Ok <==> 0 < fee_denominator && fee_numerator < fee_denominator,
        res matches Ok(pool) ==> pool.token_a_mint == keys.token_a_mint && pool.token_b_mint
            == keys.token_b_mint && pool.token_a_vault == keys.token_a_vault && pool.token_b_vault
            == keys.token_b_vault && pool.lp_mint == keys.lp_mint && pool.reserve_a == 0
            && pool.reserve_b == 0 && pool.lp_supply == 0 && pool.fee_numerator == fee_numerator
            && pool.fee_denominator == fee_denominator && pool.bump == bump,
        res is Err ==> res == Err::<Pool, DexError>(DexError::InvalidFee),
{
    if !(fee_denominator > 0 && fee_numerator < fee_denominator) {
        return Err(DexError::InvalidFee);
    }
    Ok(
        Pool {
            token_a_mint: keys.token_a_mint,
            token_b_mint: keys.token_b_mint,
            token_a_vault: keys.token_a_vault,
            token_b_vault: keys.token_b_vault,
            lp_mint: keys.lp_mint,
            reserve_a: 0,
            reserve_b: 0,
            lp_supply: 0,
            fee_numerator,
            fee_denominator,
            bump,
        },
    )
}

/// `add_liquidity` before the transfers: the LP tokens to mint, refused
/// first when the named mints, vaults or LP mint are not the pool's
/// (`InvalidVaultMint`), then for a zero amount (`ZeroAmount`), then by the
/// pool rules.
pub fn add_liquidity(
    pool: &Pool,
    keys: &PoolKeys,
    token_a_amount: u64,
    token_b_amount: u64,
    min_lp_amount: u64,
) -> (res: Result<u64, DexError>)
    ensures
        res == (if !pool_keys_match(*pool, *keys) {
            Err(DexError::InvalidVaultMint)
        } else if token_a_amount == 0 || token_b_amount == 0 {
            Err(DexError::ZeroAmount)
        } else {
            match spec_quote_add_liquidity(
                pool.spec_reserves(),
                token_a_amount,
                token_b_amount,
                min_lp_amount,
            ) {
                Ok(lp) => Ok(lp),
                Err(e) => Err(spec_dex_error(e)),
            }
        }),
        res is Ok ==> pool_keys_match(*pool, *keys),
{
    if !check_pool_keys(pool, keys) {
        return Err(DexError::InvalidVaultMint);
    }
    if token_a_amount == 0 || token_b_amount == 0 {
        return Err(DexError::ZeroAmount);
    }
    match quote_add_liquidity(&pool.reserves(), token_a_amount, token_b_amount, min_lp_amount) {
        Ok(lp) => Ok(lp),
        Err(e) => Err(dex_error(e)),
    }
}

/// `add_liquidity` after the transfers: the pool with both reserves and the
/// LP supply grown (`Overflow` when one does not fit).
pub fn add_liquidity_settle(
    pool: &Pool,
    token_a_amount: u64,
    token_b_amount: u64,
    lp_amount: u64,
) -> (res: Result<Pool, DexError>)
    ensures
        res == spec_settled(
            *pool,
            spec_settle_add_liquidity(pool.spec_reserves(), token_a_amount, token_b_amount, lp_amount),
        ),
        res matches Ok(after) ==> after.reserve_a == pool.reserve_a + token_a_amount && after.reserve_b
            == pool.reserve_b + token_b_amount && after.lp_supply == pool.lp_supply + lp_amount
            && after.token_a_mint == pool.token_a_mint && after.token_b_mint == pool.token_b_mint
            && after.token_a_vault == pool.token_a_vault && after.token_b_vault == pool.token_b_vault
            && after.lp_mint == pool.lp_mint && after.fee_numerator == pool.fee_numerator
            && after.fee_denominator == pool.fee_denominator && after.bump == pool.bump,
{
    match settle_add_liquidity(&pool.reserves(), token_a_amount, token_b_amount, lp_amount) {
        Ok(r) => Ok(pool.with_reserves(r)),
        Err(e) => Err(dex_error(e)),
    }
}

/// `remove_liquidity` before the transfers: the amounts of A and B to pay
/// out, refused first when the named mints, vaults or LP mint are not the
/// pool's (`InvalidVaultMint`), then for a zero LP amount (`ZeroAmount`),
/// then by the pool rules.
pub fn remove_liquidity(
    pool: &Pool,
    keys: &PoolKeys,
    lp_amount: u64,
    min_token_a: u64,
    min_token_b: u64,
) -> (res: Result<(u64, u64), DexError>)
    ensures
        res == (if !pool_keys_match(*pool, *keys) {
            Err(DexError::InvalidVaultMint)
        } else if lp_amount == 0 {
            Err(DexError::ZeroAmount)
        } else {
            match spec_quote_remove_liquidity(
                pool.spec_reserves(),
                lp_amount,
                min_token_a,
                min_token_b,
            ) {
                Ok(amounts) => Ok(amounts),
                Err(e) => Err(spec_dex_error(e)),
            }
        }),
        res is Ok ==> pool_keys_match(*pool, *keys),
{
    if !check_pool_keys(pool, keys) {
        return Err(DexError::InvalidVaultMint);
    }
    if lp_amount == 0 {
        return Err(DexError::ZeroAmount);
    }
    match quote_remove_liquidity(&pool.reserves(), lp_amount, min_token_a, min_token_b) {
        Ok(amounts) => Ok(amounts),
        Err(e) => Err(dex_error(e)),
    }
}

/// `remove_liquidity` after the transfers: the pool with both reserves and
/// the LP supply shrunk (`Overflow` when one would go below zero).
pub fn remove_liquidity_settle(pool: &Pool, lp_amount: u64, amount_a: u64, amount_b: u64) -> (res:
    Result<Pool, DexError>)
    ensures
        res == spec_settled(
            *pool,
            spec_settle_remove_liquidity(pool.spec_reserves(), lp_amount, amount_a, amount_b),
        ),
        res matches Ok(after) ==> after.reserve_a == pool.reserve_a - amount_a && after.reserve_b
            == pool.reserve_b - amount_b && after.lp_supply == pool.lp_supply - lp_amount
            && after.token_a_mint == pool.token_a_mint && after.token_b_mint == pool.token_b_mint
            && after.token_a_vault == pool.token_a_vault && after.token_b_vault == pool.token_b_vault
            && after.lp_mint == pool.lp_mint && after.fee_numerator == pool.fee_numerator
            && after.fee_denominator == pool.fee_denominator && after.bump == pool.bump,
{
    match settle_remove_liquidity(&pool.reserves(), lp_amount, amount_a, amount_b) {
        Ok(r) => Ok(pool.with_reserves(r)),
        Err(e) => Err(dex_error(e)),
    }
}

/// `swap` before the transfers: the output amount, refused first when the
/// named mints are not the pool's or the vaults are not the pool's for the
/// direction (`InvalidVaultMint`), then for a zero input (`ZeroAmount`),
/// then by the pool rules.
pub fn swap(pool: &Pool, keys: &SwapKeys, amount_in: u64, min_amount_out: u64, a_to_b: bool) -> (res:
    Result<u64, DexError>)
    ensures
        res == (if !swap_keys_match(*pool, *keys, a_to_b) {
            Err(DexError::InvalidVaultMint)
        } else if amount_in == 0 {
            Err(DexError::ZeroAmount)
        } else {
            match spec_quote_swap(
                pool.spec_reserves(),
                pool.fee_numerator,
                pool.fee_denominator,
                amount_in,
                min_amount_out,
                a_to_b,
            ) {
                Ok(out) => Ok(out),
                Err(e) => Err(spec_dex_error(e)),
            }
        }),
        res is Ok ==> swap_keys_match(*pool, *keys, a_to_b),
{
    let (source_vault, dest_vault) = if a_to_b {
        (&pool.token_a_vault, &pool.token_b_vault)
    } else {
        (&pool.token_b_vault, &pool.token_a_vault)
    };
    if !keys_equal(&keys.token_a_mint, &pool.token_a_mint) || !keys_equal(
        &keys.token_b_mint,
        &pool.token_b_mint,
    ) || !keys_equal(&keys.pool_source_vault, source_vault) || !keys_equal(
        &keys.pool_dest_vault,
        dest_vault,
    ) {
        return Err(DexError::InvalidVaultMint);
    }
    if amount_in == 0 {
        return Err(DexError::ZeroAmount);
    }
    match quote_swap(
        &pool.reserves(),
        pool.fee_numerator,
        pool.fee_denominator,
        amount_in,
        min_amount_out,
        a_to_b,
    ) {
        Ok(out) => Ok(out),
        Err(e) => Err(dex_error(e)),
    }
}

/// `swap` after the transfers: the pool with the input side grown and the
/// output side shrunk (`Overflow` when one does not fit).
pub fn swap_settle(pool: &Pool, amount_in: u64, amount_out: u64, a_to_b: bool) -> (res: Result<
    Pool,
    DexError,
>)
    ensures
        res == spec_settled(
            *pool,
            spec_settle_swap(pool.spec_reserves(), amount_in, amount_out, a_to_b),
        ),
        res matches Ok(after) ==> after.lp_supply == pool.lp_supply && (if a_to_b {
            after.reserve_a == pool.reserve_a + amount_in && after.reserve_b == pool.reserve_b
                - amount_out
        } else {
            after.reserve_b == pool.reserve_b + amount_in && after.reserve_a == pool.reserve_a
                - amount_out
        }) && after.token_a_mint == pool.token_a_mint && after.token_b_mint == pool.token_b_mint
            && after.token_a_vault == pool.token_a_vault && after.token_b_vault == pool.token_b_vault
            && after.lp_mint == pool.lp_mint && after.fee_numerator == pool.fee_numerator
            && after.fee_denominator == pool.fee_denominator && after.bump == pool.bump,
{
    match settle_swap(&pool.reserves(), amount_in, amount_out, a_to_b) {
        Ok(r) => Ok(pool.with_reserves(r)),
        Err(e) => Err(dex_error(e)),
    }
}

/// `get_pool_info`: the pool's summary (price, k, per-LP backing).
pub fn get_pool_info(pool: &Pool) -> (info: PoolInfo)
    ensures
        info == spec_pool_info(pool.spec_reserves()),
{
    pool_info(&pool.reserves())
}

/// A deposit into a valid pool leaves a valid pool, and burning the LP
/// tokens it minted right away pays out at most what was deposited.
pub proof fn lemma_add_liquidity_keeps_pool_valid(
    pool: Pool,
    token_a_amount: u64,
    token_b_amount: u64,
    min_lp_amount: u64,
)
    requires
        pool.is_valid(),
        token_a_amount > 0,
        token_b_amount > 0,
        spec_quote_add_liquidity(
            pool.spec_reserves(),
            token_a_amount,
            token_b_amount,
            min_lp_amount,
        ) is Ok,
    ensures
        ({
            let lp = spec_quote_add_liquidity(
                pool.spec_reserves(),
                token_a_amount,
                token_b_amount,
                min_lp_amount,
            )->Ok_0;
            spec_settled(
                pool,
                spec_settle_add_liquidity(pool.spec_reserves(), token_a_amount, token_b_amount, lp),
            ) matches Ok(after) ==> {
                &&& after.is_valid()
                &&& spec_quote_remove_liquidity(after.spec_reserves(), lp, 0, 0) matches Ok(
                    (out_a, out_b),
                )
                &&& out_a <= token_a_amount
                &&& out_b <= token_b_amount
            }
        }),
{
    let r = pool.spec_reserves();
    let lp = spec_quote_add_liquidity(r, token_a_amount, token_b_amount, min_lp_amount)->Ok_0;
    if spec_settle_add_liquidity(r, token_a_amount, token_b_amount, lp) is Ok {
        lemma_deposit_is_fair(r, token_a_amount, token_b_amount, min_lp_amount);
    }
}

/// A withdrawal from a valid pool leaves a valid pool, no poorer per
/// remaining LP token.
pub proof fn lemma_remove_liquidity_keeps_pool_valid(
    pool: Pool,
    lp_amount: u64,
    min_token_a: u64,
    min_token_b: u64,
)
    requires
        pool.is_valid(),
        lp_amount > 0,
        spec_quote_remove_liquidity(pool.spec_reserves(), lp_amount, min_token_a, min_token_b) is Ok,
    ensures
        ({
            let (amount_a, amount_b) = spec_quote_remove_liquidity(
                pool.spec_reserves(),
                lp_amount,
                min_token_a,
                min_token_b,
            )->Ok_0;
            spec_settled(
                pool,
                spec_settle_remove_liquidity(pool.spec_reserves(), lp_amount, amount_a, amount_b),
            ) matches Ok(after) ==> {
                &&& after.is_valid()
                &&& after.reserve_a * pool.lp_supply >= pool.reserve_a * after.lp_supply
                &&& after.reserve_b * pool.lp_supply >= pool.reserve_b * after.lp_supply
            }
        }),
{
    let r = pool.spec_reserves();
    let (amount_a, amount_b) = spec_quote_remove_liquidity(r, lp_amount, min_token_a, min_token_b)->Ok_0;
    if spec_settle_remove_liquidity(r, lp_amount, amount_a, amount_b) is Ok {
        lemma_withdrawal_is_fair(r, lp_amount, min_token_a, min_token_b);
    }
}

/// A swap on a valid pool leaves a valid pool with the same LP supply and a
/// product of reserves that is no smaller.
pub proof fn lemma_swap_keeps_pool_valid(
    pool: Pool,
    amount_in: u64,
    min_amount_out: u64,
    a_to_b: bool,
)
    requires
        pool.is_valid(),
        spec_quote_swap(
            pool.spec_reserves(),
            pool.fee_numerator,
            pool.fee_denominator,
            amount_in,
            min_amount_out,
            a_to_b,
        ) is Ok,
    ensures
        ({
            let out = spec_quote_swap(
                pool.spec_reserves(),
                pool.fee_numerator,
                pool.fee_denominator,
                amount_in,
                min_amount_out,
                a_to_b,
            )->Ok_0;
            spec_settled(
                pool,
                spec_settle_swap(pool.spec_reserves(), amount_in, out, a_to_b),
            ) matches Ok(after) ==> {
                &&& after.is_valid()
                &&& after.lp_supply == pool.lp_supply
                &&& after.reserve_a * after.reserve_b >= pool.reserve_a * pool.reserve_b
            }
        }),
{
    let r = pool.spec_reserves();
    let out = spec_quote_swap(
        r,
        pool.fee_numerator,
        pool.fee_denominator,
        amount_in,
        min_amount_out,
        a_to_b,
    )->Ok_0;
    if spec_settle_swap(r, amount_in, out, a_to_b) is Ok {
        lemma_swap_keeps_k(r, pool.fee_numerator, pool.fee_denominator, amount_in, min_amount_out, a_to_b);
    }
}

} // verus!
