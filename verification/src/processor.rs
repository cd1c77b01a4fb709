//! The decisions of the native program's instructions.
//!
//! Each instruction reads the pool account, decides, moves tokens through the
//! SPL token program, and writes the pool back. The token moves are the
//! runtime's business; this module decides everything around them: what is
//! checked and refused, in which order, which amounts move, and the pool that
//! is written afterwards. An instruction that moves tokens is decided in two
//! steps: a quote before the transfers and a settlement after them.
use vstd::prelude::*;
use crate::amm::{
    lemma_deposit_is_fair, lemma_swap_keeps_k, lemma_withdrawal_is_fair, pool_info,
    quote_add_liquidity, quote_remove_liquidity, quote_swap, settle_add_liquidity,
    settle_remove_liquidity, settle_swap, spec_pool_info, spec_quote_add_liquidity,
    spec_quote_remove_liquidity, spec_quote_swap, spec_settle_add_liquidity,
    spec_settle_remove_liquidity, spec_settle_swap, AmmError, PoolInfo, Reserves,
};
use crate::error::DexError;
use crate::pda::{spec_find_program_address, try_find_program_address};
use crate::state::{lemma_unpack_pack, Pool, POOL_SIZE};

verus! {

/// Why the native program refuses an instruction.
#[derive(Debug, Clone, Copy, PartialEq, Eq, Structural)]
pub enum ProcessError {
    /// A custom error of the program.
    Dex(DexError),
    /// The instruction came with fewer accounts than it reads.
    NotEnoughAccountKeys,
    /// The pool authority is not the expected program derived address.
    InvalidAccountData,
    /// The pool account is smaller than a pool.
    AccountDataTooSmall,
    /// The pool account's bytes do not hold a pool.
    InvalidPoolData,
}

/// The program's error for a refusal of the pool rules.
pub open spec fn spec_dex_error(e: AmmError) -> DexError {
    match e {
        AmmError::ZeroAmount => DexError::ZeroAmount,
        AmmError::InsufficientLiquidity => DexError::InsufficientLiquidity,
        AmmError::SlippageExceeded => DexError::SlippageExceeded,
        AmmError::Overflow => DexError::Overflow,
    }
}

/// The program's error for a refusal of the pool rules.
pub fn dex_error(e: AmmError) -> (d: DexError)
    ensures
        d == spec_dex_error(e),
{
    match e {
        AmmError::ZeroAmount => DexError::ZeroAmount,
        AmmError::InsufficientLiquidity => DexError::InsufficientLiquidity,
        AmmError::SlippageExceeded => DexError::SlippageExceeded,
        AmmError::Overflow => DexError::Overflow,
    }
}

/// The keys of the accounts an `InitializePool` instruction names.
#[derive(Debug, Clone, Copy, PartialEq, Eq)]
pub struct PoolKeys {
    pub pool_account: [u8; 32],
    pub token_a_mint: [u8; 32],
    pub token_b_mint: [u8; 32],
    pub token_a_vault: [u8; 32],
    pub token_b_vault: [u8; 32],
    pub lp_mint: [u8; 32],
    pub pool_authority: [u8; 32],
}

/// The first seed of the pool authority PDA: the bytes of "pool_authority".
pub open spec fn pool_authority_seed() -> Seq<u8> {
    seq![112u8, 111u8, 111u8, 108u8, 95u8, 97u8, 117u8, 116u8, 104u8, 111u8, 114u8, 105u8, 116u8, 121u8]
}

/// The first seed is the ASCII text "pool_authority", byte for byte.
pub proof fn lemma_pool_authority_seed_is_its_name()
    ensures
        pool_authority_seed().len() == "pool_authority"@.len(),
        forall|i: int|
            0 <= i < pool_authority_seed().len() ==> pool_authority_seed()[i] as char
                == #[trigger] "pool_authority"@[i],
{
    reveal_strlit("pool_authority");
}

/// The seeds of the pool authority PDA: `["pool_authority", pool_account]`.
pub open spec fn spec_pool_authority_seeds(pool_account: Seq<u8>) -> Seq<Seq<u8>> {
    seq![pool_authority_seed(), pool_account]
}

/// The seeds of the pool authority PDA: `["pool_authority", pool_account]`.
pub fn pool_authority_seeds(pool_account: &[u8; 32]) -> (seeds: Vec<Vec<u8>>)
    ensures
        seeds.deep_view() == spec_pool_authority_seeds(pool_account@),
{
    let prefix: Vec<u8> = vec![112u8, 111u8, 111u8, 108u8, 95u8, 97u8, 117u8, 116u8, 104u8, 111u8, 114u8, 105u8, 116u8, 121u8];
    let key = vstd::slice::slice_to_vec(pool_account.as_slice());
    let seeds = vec![prefix, key];
    proof {
        assert(seeds.deep_view()[0] =~= pool_authority_seed());
        assert(seeds.deep_view()[1] =~= pool_account@);
        assert(seeds.deep_view() =~= spec_pool_authority_seeds(pool_account@));
    }
    seeds
}

/// Whether two keys are equal.
pub fn keys_equal(a: &[u8; 32], b: &[u8; 32]) -> (eq: bool)
    ensures
        eq == (a@ == b@),
{
    for i in 0..32
        invariant
            forall|j: int| 0 <= j < i ==> a@[j] == b@[j],
    {
        if a[i] != b[i] {
            return false;
        }
    }
    assert(a@ =~= b@);
    true
}

/// The pool that `InitializePool` writes: initialized, empty, with the given
/// keys and fee.
pub open spec fn spec_new_pool(keys: PoolKeys, fee_numerator: u64, fee_denominator: u64, bump: u8) -> Pool {
    Pool {
        is_initialized: true,
        token_a_mint: keys.token_a_mint,
        token_b_mint: keys.token_b_mint,
        token_a_vault: keys.token_a_vault,
        token_b_vault: keys.token_b_vault,
        lp_mint: keys.lp_mint,
        reserve_a: 0,
        reserve_b: 0,
        lp_supply: 0,
        fee_numerator,
        fee_denominator,
        bump,
    }
}

/// The view of an optional key and bump.
pub open spec fn authority_view(found: Option<([u8; 32], u8)>) -> Option<(Seq<u8>, u8)> {
    match found {
        Some((address, bump)) => Some((address@, bump)),
        None => None,
    }
}

/// The view of optional account data.
pub open spec fn data_view(data: Option<&[u8]>) -> Option<Seq<u8>> {
    match data {
        Some(d) => Some(d@),
        None => None,
    }
}

/// `InitializePool`, given the authority address and bump that the program
/// id and pool account derive (`None` when none derives).
pub open spec fn spec_initialize_pool(
    expected_authority: Option<(Seq<u8>, u8)>,
    keys: PoolKeys,
    fee_numerator: u64,
    fee_denominator: u64,
    bump: u8,
    pool_data: Seq<u8>,
) -> Result<Pool, ProcessError> {
    if fee_denominator == 0 || fee_numerator >= fee_denominator {
        Err(ProcessError::Dex(DexError::InvalidFee))
    } else if !(expected_authority matches Some((address, expected_bump)) && address
        == keys.pool_authority@ && bump == expected_bump) {
        Err(ProcessError::InvalidAccountData)
    } else if pool_data.len() < POOL_SIZE {
        Err(ProcessError::AccountDataTooSmall)
    } else if Pool::spec_unpack(pool_data.subrange(0, POOL_SIZE as int)) matches Some(p)
        && p.is_initialized {
        Err(ProcessError::Dex(DexError::AlreadyInitialized))
    } else {
        Ok(spec_new_pool(keys, fee_numerator, fee_denominator, bump))
    }
}

/// The pool that account data holds, for an instruction that came with its
/// accounts (`Some`) or without (`None`), refused unless it is an initialized pool.
pub open spec fn spec_load_pool(pool_data: Option<Seq<u8>>) -> Result<Pool, ProcessError> {
    match pool_data {
        None => Err(ProcessError::NotEnoughAccountKeys),
        Some(bytes) => match Pool::spec_unpack(bytes) {
            None => Err(ProcessError::InvalidPoolData),
            Some(p) => if !p.is_initialized {
                Err(ProcessError::Dex(DexError::NotInitialized))
            } else {
                Ok(p)
            },
        },
    }
}

/// The accounts an `AddLiquidity` instruction reads: the pool account's
/// data and the keys of the pool-side accounts it names.
pub struct AddLiquidityAccounts<'a> {
    /// Data of the pool account (account 1).
    pub pool_data: &'a [u8],
    /// Key of account 3, the token A vault.
    pub token_a_vault: [u8; 32],
    /// Key of account 5, the token B vault.
    pub token_b_vault: [u8; 32],
    /// Key of account 6, the LP mint.
    pub lp_mint: [u8; 32],
}

/// The accounts a `RemoveLiquidity` instruction reads: the pool account's
/// data and the keys of the pool-side accounts it names.
pub struct RemoveLiquidityAccounts<'a> {
    /// Data of the pool account (account 1).
    pub pool_data: &'a [u8],
    /// Key of account 3, the LP mint.
    pub lp_mint: [u8; 32],
    /// Key of account 4, the token A vault.
    pub token_a_vault: [u8; 32],
    /// Key of account 6, the token B vault.
    pub token_b_vault: [u8; 32],
}

/// The accounts a `Swap` instruction reads: the pool account's data and the
/// keys of the two pool vaults it names.
pub struct SwapAccounts<'a> {
    /// Data of the pool account (account 1).
    pub pool_data: &'a [u8],
    /// Key of account 3, the pool vault that receives the input.
    pub pool_source_vault: [u8; 32],
    /// Key of account 4, the pool vault that pays the output.
    pub pool_dest_vault: [u8; 32],
}

/// The vaults and LP mint of a deposit are the ones the pool records.
pub open spec fn add_liquidity_accounts_match(pool: Pool, accounts: AddLiquidityAccounts) -> bool {
    &&& accounts.token_a_vault@ == pool.token_a_vault@
    &&& accounts.token_b_vault@ == pool.token_b_vault@
    &&& accounts.lp_mint@ == pool.lp_mint@
}

/// The LP mint and vaults of a withdrawal are the ones the pool records.
pub open spec fn remove_liquidity_accounts_match(
    pool: Pool,
    accounts: RemoveLiquidityAccounts,
) -> bool {
    &&& accounts.lp_mint@ == pool.lp_mint@
    &&& accounts.token_a_vault@ == pool.token_a_vault@
    &&& accounts.token_b_vault@ == pool.token_b_vault@
}

/// The vaults of a swap are the pool's: the input side's vault receives,
/// the output side's vault pays.
pub open spec fn swap_accounts_match(pool: Pool, accounts: SwapAccounts, a_to_b: bool) -> bool {
    if a_to_b {
        &&& accounts.pool_source_vault@ == pool.token_a_vault@
        &&& accounts.pool_dest_vault@ == pool.token_b_vault@
    } else {
        &&& accounts.pool_source_vault@ == pool.token_b_vault@
        &&& accounts.pool_dest_vault@ == pool.token_a_vault@
    }
}

/// `AddLiquidity` up to the transfers: the pool and the LP tokens to mint.
pub open spec fn spec_add_liquidity_quote(
    token_a_amount: u64,
    token_b_amount: u64,
    min_lp_amount: u64,
    accounts: Option<AddLiquidityAccounts>,
) -> Result<(Pool, u64), ProcessError> {
    if token_a_amount == 0 || token_b_amount == 0 {
        Err(ProcessError::Dex(DexError::ZeroAmount))
    } else {
        match accounts {
            None => Err(ProcessError::NotEnoughAccountKeys),
            Some(accs) => match spec_load_pool(Some(accs.pool_data@)) {
                Err(e) => Err(e),
                Ok(pool) => if !add_liquidity_accounts_match(pool, accs) {
                    Err(ProcessError::Dex(DexError::InvalidPoolAccounts))
                } else {
                    match spec_quote_add_liquidity(
                        pool.spec_reserves(),
                        token_a_amount,
                        token_b_amount,
                        min_lp_amount,
                    ) {
                        Err(e) => Err(ProcessError::Dex(spec_dex_error(e))),
                        Ok(lp) => Ok((pool, lp)),
                    }
                },
            },
        }
    }
}

/// `RemoveLiquidity` up to the transfers: the pool and the amounts of A and B to pay out.
pub open spec fn spec_remove_liquidity_quote(
    lp_amount: u64,
    min_token_a: u64,
    min_token_b: u64,
    accounts: Option<RemoveLiquidityAccounts>,
) -> Result<(Pool, u64, u64), ProcessError> {
    if lp_amount == 0 {
        Err(ProcessError::Dex(DexError::ZeroAmount))
    } else {
        match accounts {
            None => Err(ProcessError::NotEnoughAccountKeys),
            Some(accs) => match spec_load_pool(Some(accs.pool_data@)) {
                Err(e) => Err(e),
                Ok(pool) => if !remove_liquidity_accounts_match(pool, accs) {
                    Err(ProcessError::Dex(DexError::InvalidPoolAccounts))
                } else {
                    match spec_quote_remove_liquidity(
                        pool.spec_reserves(),
                        lp_amount,
                        min_token_a,
                        min_token_b,
                    ) {
                        Err(e) => Err(ProcessError::Dex(spec_dex_error(e))),
                        Ok((amount_a, amount_b)) => Ok((pool, amount_a, amount_b)),
                    }
                },
            },
        }
    }
}

/// `Swap` up to the transfers: the pool and the output amount.
pub open spec fn spec_swap_quote(
    amount_in: u64,
    min_amount_out: u64,
    a_to_b: bool,
    accounts: Option<SwapAccounts>,
) -> Result<(Pool, u64), ProcessError> {
    if amount_in == 0 {
        Err(ProcessError::Dex(DexError::ZeroAmount))
    } else {
        match accounts {
            None => Err(ProcessError::NotEnoughAccountKeys),
            Some(accs) => match spec_load_pool(Some(accs.pool_data@)) {
                Err(e) => Err(e),
                Ok(pool) => if !swap_accounts_match(pool, accs, a_to_b) {
                    Err(ProcessError::Dex(DexError::InvalidPoolAccounts))
                } else {
                    match spec_quote_swap(
                        pool.spec_reserves(),
                        pool.fee_numerator,
                        pool.fee_denominator,
                        amount_in,
                        min_amount_out,
                        a_to_b,
                    ) {
                        Err(e) => Err(ProcessError::Dex(spec_dex_error(e))),
                        Ok(out) => Ok((pool, out)),
                    }
                },
            },
        }
    }
}

/// A settlement of the pool rules, as the pool written back.
pub open spec fn spec_settled(pool: Pool, settled: Result<Reserves, AmmError>) -> Result<
    Pool,
    DexError,
> {
    match settled {
        Ok(r) => Ok(pool.spec_with_reserves(r)),
        Err(e) => Err(spec_dex_error(e)),
    }
}

/// Program logic of the native DEX.
pub struct Processor;

impl Processor {
    /// Read the pool from its account's data (`None` when the instruction did
    /// not come with all its accounts); refused unless it holds an
    /// initialized pool.
    pub fn load_pool(pool_data: Option<&[u8]>) -> (res: Result<Pool, ProcessError>)
        ensures
            res == spec_load_pool(data_view(pool_data)),
    {
        let bytes = match pool_data {
            Some(bytes) => bytes,
            None => return Err(ProcessError::NotEnoughAccountKeys),
        };
        let pool = match Pool::unpack(bytes) {
            Some(pool) => pool,
            None => return Err(ProcessError::InvalidPoolData),
        };
        if !pool.is_initialized {
            return Err(ProcessError::Dex(DexError::NotInitialized));
        }
        Ok(pool)
    }

    /// `InitializePool` once the pool authority PDA is known: checks the fee
    /// (`InvalidFee`), the authority account and bump (`InvalidAccountData`),
    /// the account size (`AccountDataTooSmall`) and that the start of the
    /// account does not already hold an initialized pool
    /// (`AlreadyInitialized`), and returns the pool to write there.
    pub fn initialize_pool_with_authority(
        expected_authority: Option<([u8; 32], u8)>,
        keys: &PoolKeys,
        fee_numerator: u64,
        fee_denominator: u64,
        bump: u8,
        pool_data: &[u8],
    ) -> (res: Result<Pool, ProcessError>)
        ensures
            res == spec_initialize_pool(
                authority_view(expected_authority),
                *keys,
                fee_numerator,
                fee_denominator,
                bump,
                pool_data@,
            ),
            res matches Ok(pool) ==> pool.is_valid() && pool.reserve_a == 0 && pool.reserve_b
                == 0 && pool.lp_supply == 0,
            res matches Ok(pool) ==> pool.token_a_mint == keys.token_a_mint && pool.token_b_mint
                == keys.token_b_mint && pool.token_a_vault == keys.token_a_vault
                && pool.token_b_vault == keys.token_b_vault && pool.lp_mint == keys.lp_mint
                && pool.fee_numerator == fee_numerator && pool.fee_denominator == fee_denominator
                && pool.bump == bump && pool.is_initialized,
    {
        if fee_denominator == 0 || fee_numerator >= fee_denominator {
            return Err(ProcessError::Dex(DexError::InvalidFee));
        }
        match expected_authority {
            Some((address, expected_bump)) => {
                if !keys_equal(&address, &keys.pool_authority) || bump != expected_bump {
                    return Err(ProcessError::InvalidAccountData);
                }
            },
            None => return Err(ProcessError::InvalidAccountData),
        }
        if pool_data.len() < POOL_SIZE {
            return Err(ProcessError::AccountDataTooSmall);
        }
        if let Some(existing) = Pool::unpack(vstd::slice::slice_subrange(pool_data, 0, POOL_SIZE)) {
            if existing.is_initialized {
                return Err(ProcessError::Dex(DexError::AlreadyInitialized));
            }
        }
        Ok(
            Pool {
                is_initialized: true,
                token_a_mint: keys.token_a_mint,
                token_b_mint: keys.token_b_mint,
                token_a_vault: keys.token_a_vault,
                token_b_vault: keys.token_b_vault,
                lp_mint: keys.lp_mint,
                reserve_a: 0,
                reserve_b: 0,
                lp_supply: 0,
                fee_numerator,
                fee_denominator,
                bump,
            },
        )
    }

    /// `InitializePool`: derives the pool authority PDA from
    /// `["pool_authority", pool_account]` under `program_id`, then decides as
    /// `initialize_pool_with_authority`.
    pub fn initialize_pool(
        program_id: &[u8; 32],
        keys: &PoolKeys,
        fee_numerator: u64,
        fee_denominator: u64,
        bump: u8,
        pool_data: &[u8],
    ) -> (res: Result<Pool, ProcessError>)
        ensures
            res == spec_initialize_pool(
                spec_find_program_address(
                    spec_pool_authority_seeds(keys.pool_account@),
                    program_id@,
                ),
                *keys,
                fee_numerator,
                fee_denominator,
                bump,
                pool_data@,
            ),
            res matches Ok(pool) ==> pool.is_valid() && pool.reserve_a == 0 && pool.reserve_b
                == 0 && pool.lp_supply == 0,
            res matches Ok(pool) ==> pool.token_a_mint == keys.token_a_mint && pool.token_b_mint
                == keys.token_b_mint && pool.token_a_vault == keys.token_a_vault
                && pool.token_b_vault == keys.token_b_vault && pool.lp_mint == keys.lp_mint
                && pool.fee_numerator == fee_numerator && pool.fee_denominator == fee_denominator
                && pool.bump == bump && pool.is_initialized,
    {
        let seeds = pool_authority_seeds(&keys.pool_account);
        let expected_authority = try_find_program_address(&seeds, program_id);
        Self::initialize_pool_with_authority(
            expected_authority,
            keys,
            fee_numerator,
            fee_denominator,
            bump,
            pool_data,
        )
    }

    /// `AddLiquidity` before the transfers: refuses zero amounts
    /// (`ZeroAmount`) before anything else, then reads the pool, refuses
    /// vaults or an LP mint other than the pool's (`InvalidPoolAccounts`),
    /// and quotes the LP tokens to mint. Returns the pool and the LP amount.
    /// `accounts` is `None` when the instruction came with too few accounts.
    pub fn add_liquidity_quote(
        token_a_amount: u64,
        token_b_amount: u64,
        min_lp_amount: u64,
        accounts: Option<AddLiquidityAccounts>,
    ) -> (res: Result<(Pool, u64), ProcessError>)
        ensures
            res == spec_add_liquidity_quote(token_a_amount, token_b_amount, min_lp_amount, accounts),
            res matches Ok((pool, _)) ==> add_liquidity_accounts_match(pool, accounts->Some_0),
            res matches Ok((pool, lp)) ==> Pool::spec_unpack(accounts->Some_0.pool_data@) == Some(
                pool,
            ) && pool.is_initialized && spec_quote_add_liquidity(
                pool.spec_reserves(),
                token_a_amount,
                token_b_amount,
                min_lp_amount,
            ) == Ok::<u64, AmmError>(lp),
            token_a_amount == 0 || token_b_amount == 0 ==> res == Err::<(Pool, u64), ProcessError>(
                ProcessError::Dex(DexError::ZeroAmount),
            ),
            token_a_amount > 0 && token_b_amount > 0 && accounts is None ==> res == Err::<
                (Pool, u64),
                ProcessError,
            >(ProcessError::NotEnoughAccountKeys),
    {
        if token_a_amount == 0 || token_b_amount == 0 {
            return Err(ProcessError::Dex(DexError::ZeroAmount));
        }
        let accs = match accounts {
            Some(accs) => accs,
            None => return Err(ProcessError::NotEnoughAccountKeys),
        };
        let pool = Self::load_pool(Some(accs.pool_data))?;
        if !keys_equal(&accs.token_a_vault, &pool.token_a_vault) || !keys_equal(
            &accs.token_b_vault,
            &pool.token_b_vault,
        ) || !keys_equal(&accs.lp_mint, &pool.lp_mint) {
            return Err(ProcessError::Dex(DexError::InvalidPoolAccounts));
        }
        match quote_add_liquidity(&pool.reserves(), token_a_amount, token_b_amount, min_lp_amount) {
            Ok(lp_amount) => Ok((pool, lp_amount)),
            Err(e) => Err(ProcessError::Dex(dex_error(e))),
        }
    }

    /// `AddLiquidity` after the transfers: the pool to write back, with both
    /// reserves and the LP supply grown (`Overflow` when one does not fit).
    pub fn add_liquidity_settle(
        pool: &Pool,
        token_a_amount: u64,
        token_b_amount: u64,
        lp_amount: u64,
    ) -> (res: Result<Pool, DexError>)
        ensures
            res == spec_settled(
                *pool,
                spec_settle_add_liquidity(
                    pool.spec_reserves(),
                    token_a_amount,
                    token_b_amount,
                    lp_amount,
                ),
            ),
            res matches Ok(after) ==> after.reserve_a == pool.reserve_a + token_a_amount && after.reserve_b
                == pool.reserve_b + token_b_amount && after.lp_supply == pool.lp_supply + lp_amount
                && after.token_a_mint == pool.token_a_mint && after.token_b_mint == pool.token_b_mint
                && after.token_a_vault == pool.token_a_vault && after.token_b_vault == pool.token_b_vault
                && after.lp_mint == pool.lp_mint && after.fee_numerator == pool.fee_numerator
                && after.fee_denominator == pool.fee_denominator && after.bump == pool.bump,
    {
        match settle_add_liquidity(&pool.reserves(), token_a_amount, token_b_amount, lp_amount) {
            Ok(r) => Ok(pool.with_reserves(r)),
            Err(e) => Err(dex_error(e)),
        }
    }

    /// `RemoveLiquidity` before the transfers: refuses a zero LP amount
    /// (`ZeroAmount`) before anything else, then reads the pool, refuses an
    /// LP mint or vaults other than the pool's (`InvalidPoolAccounts`), and
    /// quotes the amounts of A and B to pay out. `accounts` is `None` when
    /// the instruction came with too few accounts.
    pub fn remove_liquidity_quote(
        lp_amount: u64,
        min_token_a: u64,
        min_token_b: u64,
        accounts: Option<RemoveLiquidityAccounts>,
    ) -> (res: Result<(Pool, u64, u64), ProcessError>)
        ensures
            res == spec_remove_liquidity_quote(lp_amount, min_token_a, min_token_b, accounts),
            res matches Ok((pool, _, _)) ==> remove_liquidity_accounts_match(
                pool,
                accounts->Some_0,
            ),
            res matches Ok((pool, a, b)) ==> Pool::spec_unpack(accounts->Some_0.pool_data@)
                == Some(pool) && pool.is_initialized && spec_quote_remove_liquidity(
                pool.spec_reserves(),
                lp_amount,
                min_token_a,
                min_token_b,
            ) == Ok::<(u64, u64), AmmError>((a, b)),
            lp_amount == 0 ==> res == Err::<(Pool, u64, u64), ProcessError>(
                ProcessError::Dex(DexError::ZeroAmount),
            ),
            lp_amount > 0 && accounts is None ==> res == Err::<(Pool, u64, u64), ProcessError>(
                ProcessError::NotEnoughAccountKeys,
            ),
    {
        if lp_amount == 0 {
            return Err(ProcessError::Dex(DexError::ZeroAmount));
        }
        let accs = match accounts {
            Some(accs) => accs,
            None => return Err(ProcessError::NotEnoughAccountKeys),
        };
        let pool = Self::load_pool(Some(accs.pool_data))?;
        if !keys_equal(&accs.lp_mint, &pool.lp_mint) || !keys_equal(
            &accs.token_a_vault,
            &pool.token_a_vault,
        ) || !keys_equal(&accs.token_b_vault, &pool.token_b_vault) {
            return Err(ProcessError::Dex(DexError::InvalidPoolAccounts));
        }
        match quote_remove_liquidity(&pool.reserves(), lp_amount, min_token_a, min_token_b) {
            Ok((amount_a, amount_b)) => Ok((pool, amount_a, amount_b)),
            Err(e) => Err(ProcessError::Dex(dex_error(e))),
        }
    }

    /// `RemoveLiquidity` after the transfers: the pool to write back, with
    /// both reserves and the LP supply shrunk (`Overflow` when one would go
    /// below zero).
    pub fn remove_liquidity_settle(
        pool: &Pool,
        lp_amount: u64,
        amount_a: u64,
        amount_b: u64,
    ) -> (res: Result<Pool, DexError>)
        ensures
            res == spec_settled(
                *pool,
                spec_settle_remove_liquidity(pool.spec_reserves(), lp_amount, amount_a, amount_b),
            ),
            res matches Ok(after) ==> after.reserve_a == pool.reserve_a - amount_a && after.reserve_b
                == pool.reserve_b - amount_b && after.lp_supply == pool.lp_supply - lp_amount
                && after.token_a_mint == pool.token_a_mint && after.token_b_mint == pool.token_b_mint
                && after.token_a_vault == pool.token_a_vault && after.token_b_vault == pool.token_b_vault
                && after.lp_mint == pool.lp_mint && after.fee_numerator == pool.fee_numerator
                && after.fee_denominator == pool.fee_denominator && after.bump == pool.bump,
    {
        match settle_remove_liquidity(&pool.reserves(), lp_amount, amount_a, amount_b) {
            Ok(r) => Ok(pool.with_reserves(r)),
            Err(e) => Err(dex_error(e)),
        }
    }

    /// `Swap` before the transfers: refuses a zero input (`ZeroAmount`)
    /// before anything else, then reads the pool, refuses vaults other than
    /// the pool's for the chosen direction (`InvalidPoolAccounts`), and
    /// quotes the output. `accounts` is `None` when the instruction came with
    /// too few accounts.
    pub fn swap_quote(
        amount_in: u64,
        min_amount_out: u64,
        a_to_b: bool,
        accounts: Option<SwapAccounts>,
    ) -> (res: Result<(Pool, u64), ProcessError>)
        ensures
            res == spec_swap_quote(amount_in, min_amount_out, a_to_b, accounts),
            res matches Ok((pool, _)) ==> swap_accounts_match(pool, accounts->Some_0, a_to_b),
            res matches Ok((pool, out)) ==> Pool::spec_unpack(accounts->Some_0.pool_data@) == Some(
                pool,
            ) && pool.is_initialized && spec_quote_swap(
                pool.spec_reserves(),
                pool.fee_numerator,
                pool.fee_denominator,
                amount_in,
                min_amount_out,
                a_to_b,
            ) == Ok::<u64, AmmError>(out),
            amount_in == 0 ==> res == Err::<(Pool, u64), ProcessError>(
                ProcessError::Dex(DexError::ZeroAmount),
            ),
            amount_in > 0 && accounts is None ==> res == Err::<(Pool, u64), ProcessError>(
                ProcessError::NotEnoughAccountKeys,
            ),
    {
        if amount_in == 0 {
            return Err(ProcessError::Dex(DexError::ZeroAmount));
        }
        let accs = match accounts {
            Some(accs) => accs,
            None => return Err(ProcessError::NotEnoughAccountKeys),
        };
        let pool = Self::load_pool(Some(accs.pool_data))?;
        let (source_vault, dest_vault) = if a_to_b {
            (&pool.token_a_vault, &pool.token_b_vault)
        } else {
            (&pool.token_b_vault, &pool.token_a_vault)
        };
        if !keys_equal(&accs.pool_source_vault, source_vault) || !keys_equal(
            &accs.pool_dest_vault,
            dest_vault,
        ) {
            return Err(ProcessError::Dex(DexError::InvalidPoolAccounts));
        }
        match quote_swap(
            &pool.reserves(),
            pool.fee_numerator,
            pool.fee_denominator,
            amount_in,
            min_amount_out,
            a_to_b,
        ) {
            Ok(amount_out) => Ok((pool, amount_out)),
            Err(e) => Err(ProcessError::Dex(dex_error(e))),
        }
    }

    /// `Swap` after the transfers: the pool to write back, with the input
    /// side grown and the output side shrunk (`Overflow` when one does not fit).
    pub fn swap_settle(pool: &Pool, amount_in: u64, amount_out: u64, a_to_b: bool) -> (res: Result<
        Pool,
        DexError,
    >)
        ensures
            res == spec_settled(
                *pool,
                spec_settle_swap(pool.spec_reserves(), amount_in, amount_out, a_to_b),
            ),
            res matches Ok(after) ==> after.lp_supply == pool.lp_supply && (if a_to_b {
                after.reserve_a == pool.reserve_a + amount_in && after.reserve_b == pool.reserve_b
                    - amount_out
            } else {
                after.reserve_b == pool.reserve_b + amount_in && after.reserve_a == pool.reserve_a
                    - amount_out
            }) && after.token_a_mint == pool.token_a_mint && after.token_b_mint == pool.token_b_mint
                && after.token_a_vault == pool.token_a_vault && after.token_b_vault == pool.token_b_vault
                && after.lp_mint == pool.lp_mint && after.fee_numerator == pool.fee_numerator
                && after.fee_denominator == pool.fee_denominator && after.bump == pool.bump,
    {
        match settle_swap(&pool.reserves(), amount_in, amount_out, a_to_b) {
            Ok(r) => Ok(pool.with_reserves(r)),
            Err(e) => Err(dex_error(e)),
        }
    }

    /// `GetPoolInfo`: the pool and its summary (price, k, per-LP backing).
    pub fn pool_info(pool_data: Option<&[u8]>) -> (res: Result<(Pool, PoolInfo), ProcessError>)
        ensures
            res == (match data_view(pool_data) {
                None => Err(ProcessError::NotEnoughAccountKeys),
                Some(bytes) => match Pool::spec_unpack(bytes) {
                    None => Err(ProcessError::InvalidPoolData),
                    Some(p) => Ok((p, spec_pool_info(p.spec_reserves()))),
                },
            }),
    {
        let bytes = match pool_data {
            Some(bytes) => bytes,
            None => return Err(ProcessError::NotEnoughAccountKeys),
        };
        match Pool::unpack(bytes) {
            Some(pool) => {
                let info = pool_info(&pool.reserves());
                Ok((pool, info))
            },
            None => Err(ProcessError::InvalidPoolData),
        }
    }
}

/// `InitializePool` in terms of its inputs: it succeeds exactly when the fee
/// is below 100% over a positive denominator, the named authority and bump
/// are the derived ones, the account holds at least a pool's bytes and its
/// first `POOL_SIZE` bytes do not hold an initialized pool; the pool it
/// writes is initialized, empty, and records exactly the named mints,
/// vaults, LP mint, fee and bump.
pub proof fn lemma_initialize_pool_records_accounts(
    expected_authority: Option<(Seq<u8>, u8)>,
    keys: PoolKeys,
    fee_numerator: u64,
    fee_denominator: u64,
    bump: u8,
    pool_data: Seq<u8>,
)
    ensures
        spec_initialize_pool(
            expected_authority,
            keys,
            fee_numerator,
            fee_denominator,
            bump,
            pool_data,
        ) matches Ok(p) ==> {
            &&& p.is_initialized
            &&& p.token_a_mint == keys.token_a_mint
            &&& p.token_b_mint == keys.token_b_mint
            &&& p.token_a_vault == keys.token_a_vault
            &&& p.token_b_vault == keys.token_b_vault
            &&& p.lp_mint == keys.lp_mint
            &&& p.reserve_a == 0 && p.reserve_b == 0 && p.lp_supply == 0
            &&& p.fee_numerator == fee_numerator
            &&& p.fee_denominator == fee_denominator
            &&& p.bump == bump
        },
        spec_initialize_pool(
            expected_authority,
            keys,
            fee_numerator,
            fee_denominator,
            bump,
            pool_data,
        ) is Ok <==> {
            &&& 0 < fee_denominator
            &&& fee_numerator < fee_denominator
            &&& expected_authority == Some((keys.pool_authority@, bump))
            &&& pool_data.len() >= 202
            &&& !(Pool::spec_unpack(pool_data.subrange(0, 202)) matches Some(q) && q.is_initialized)
        },
        fee_denominator == 0 || fee_numerator >= fee_denominator ==> spec_initialize_pool(
            expected_authority,
            keys,
            fee_numerator,
            fee_denominator,
            bump,
            pool_data,
        ) == Err::<Pool, ProcessError>(ProcessError::Dex(DexError::InvalidFee)),
{
}

/// A deposit into a valid pool, with the pool's own vaults and LP mint,
/// leaves a valid pool, and burning the LP tokens it minted right away pays
/// out at most what was deposited.
pub proof fn lemma_add_liquidity_keeps_pool_valid(
    pool: Pool,
    accounts: AddLiquidityAccounts,
    token_a_amount: u64,
    token_b_amount: u64,
    min_lp_amount: u64,
)
    requires
        pool.is_valid(),
        accounts.pool_data@ == pool.spec_pack(),
        spec_add_liquidity_quote(token_a_amount, token_b_amount, min_lp_amount, Some(accounts)) is Ok,
    ensures
        ({
            let (quoted, lp) = spec_add_liquidity_quote(
                token_a_amount,
                token_b_amount,
                min_lp_amount,
                Some(accounts),
            )->Ok_0;
            &&& quoted == pool
            &&& add_liquidity_accounts_match(pool, accounts)
            &&& spec_settled(
                pool,
                spec_settle_add_liquidity(pool.spec_reserves(), token_a_amount, token_b_amount, lp),
            ) matches Ok(after) ==> {
                &&& after.is_valid()
                &&& spec_quote_remove_liquidity(after.spec_reserves(), lp, 0, 0) matches Ok(
                    (out_a, out_b),
                )
                &&& out_a <= token_a_amount
                &&& out_b <= token_b_amount
            }
        }),
{
    lemma_unpack_pack(pool);
    let lp = spec_quote_add_liquidity(
        pool.spec_reserves(),
        token_a_amount,
        token_b_amount,
        min_lp_amount,
    )->Ok_0;
    if spec_settle_add_liquidity(pool.spec_reserves(), token_a_amount, token_b_amount, lp) is Ok {
        lemma_deposit_is_fair(pool.spec_reserves(), token_a_amount, token_b_amount, min_lp_amount);
    }
}

/// A withdrawal from a valid pool, with the pool's own LP mint and vaults,
/// leaves a valid pool, no poorer per remaining LP token.
pub proof fn lemma_remove_liquidity_keeps_pool_valid(
    pool: Pool,
    accounts: RemoveLiquidityAccounts,
    lp_amount: u64,
    min_token_a: u64,
    min_token_b: u64,
)
    requires
        pool.is_valid(),
        accounts.pool_data@ == pool.spec_pack(),
        spec_remove_liquidity_quote(lp_amount, min_token_a, min_token_b, Some(accounts)) is Ok,
    ensures
        ({
            let (quoted, amount_a, amount_b) = spec_remove_liquidity_quote(
                lp_amount,
                min_token_a,
                min_token_b,
                Some(accounts),
            )->Ok_0;
            &&& quoted == pool
            &&& remove_liquidity_accounts_match(pool, accounts)
            &&& spec_settled(
                pool,
                spec_settle_remove_liquidity(pool.spec_reserves(), lp_amount, amount_a, amount_b),
            ) matches Ok(after) ==> {
                &&& after.is_valid()
                &&& after.reserve_a * pool.lp_supply >= pool.reserve_a * after.lp_supply
                &&& after.reserve_b * pool.lp_supply >= pool.reserve_b * after.lp_supply
            }
        }),
{
    lemma_unpack_pack(pool);
    let (amount_a, amount_b) = spec_quote_remove_liquidity(
        pool.spec_reserves(),
        lp_amount,
        min_token_a,
        min_token_b,
    )->Ok_0;
    if spec_settle_remove_liquidity(pool.spec_reserves(), lp_amount, amount_a, amount_b) is Ok {
        lemma_withdrawal_is_fair(pool.spec_reserves(), lp_amount, min_token_a, min_token_b);
    }
}

/// A swap on a valid pool, through the pool's own vaults, leaves a valid
/// pool with the same LP supply and a product of reserves that is no smaller.
pub proof fn lemma_swap_keeps_pool_valid(
    pool: Pool,
    accounts: SwapAccounts,
    amount_in: u64,
    min_amount_out: u64,
    a_to_b: bool,
)
    requires
        pool.is_valid(),
        accounts.pool_data@ == pool.spec_pack(),
        spec_swap_quote(amount_in, min_amount_out, a_to_b, Some(accounts)) is Ok,
    ensures
        ({
            let (quoted, amount_out) = spec_swap_quote(
                amount_in,
                min_amount_out,
                a_to_b,
                Some(accounts),
            )->Ok_0;
            &&& quoted == pool
            &&& swap_accounts_match(pool, accounts, a_to_b)
            &&& spec_settled(
                pool,
                spec_settle_swap(pool.spec_reserves(), amount_in, amount_out, a_to_b),
            ) matches Ok(after) ==> {
                &&& after.is_valid()
                &&& after.lp_supply == pool.lp_supply
                &&& after.reserve_a * after.reserve_b >= pool.reserve_a * pool.reserve_b
            }
        }),
{
    lemma_unpack_pack(pool);
    let amount_out = spec_quote_swap(
        pool.spec_reserves(),
        pool.fee_numerator,
        pool.fee_denominator,
        amount_in,
        min_amount_out,
        a_to_b,
    )->Ok_0;
    if spec_settle_swap(pool.spec_reserves(), amount_in, amount_out, a_to_b) is Ok {
        lemma_swap_keeps_k(
            pool.spec_reserves(),
            pool.fee_numerator,
            pool.fee_denominator,
            amount_in,
            min_amount_out,
            a_to_b,
        );
    }
}

} // verus!
