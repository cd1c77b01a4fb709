//! The pool account of the Anchor program.
use vstd::prelude::*;
use crate::amm::Reserves;

verus! {

/// Space = 8 (discriminator) + 5 * 32 (public keys) + 5 * 8 (u64) + 1 (u8) = 209
pub const POOL_SPACE: usize = 209;

/// Liquidity pool state of the Anchor program.
#[derive(Debug, Clone, Copy, PartialEq, Eq)]
pub struct Pool {
    /// Mint of token A (e.g., USDC)
    pub token_a_mint: [u8; 32],
    /// Mint of token B (e.g., wSOL)
    pub token_b_mint: [u8; 32],
    /// Pool's token A vault (owned by pool_authority PDA)
    pub token_a_vault: [u8; 32],
    /// Pool's token B vault (owned by pool_authority PDA)
    pub token_b_vault: [u8; 32],
    /// LP token mint (mint authority = pool_authority PDA)
    pub lp_mint: [u8; 32],
    /// Cached token A reserve (must equal vault balance)
    pub reserve_a: u64,
    /// Cached token B reserve (must equal vault balance)
    pub reserve_b: u64,
    /// Total LP token supply outstanding
    pub lp_supply: u64,
    /// Fee numerator   (e.g., 3  -> 0.3%)
    pub fee_numerator: u64,
    /// Fee denominator (e.g., 1000)
    pub fee_denominator: u64,
    /// Canonical bump seed for pool_authority PDA
    pub bump: u8,
}

impl Pool {
    /// A fee below 100% over a positive denominator, and tokens held exactly
    /// when LP tokens are outstanding.
    pub open spec fn is_valid(self) -> bool {
        &&& 0 < self.fee_denominator
        &&& self.fee_numerator < self.fee_denominator
        &&& self.spec_reserves().is_consistent()
    }

    /// The balances of the pool.
    pub open spec fn spec_reserves(self) -> Reserves {
        Reserves {
            reserve_a: self.reserve_a,
            reserve_b: self.reserve_b,
            lp_supply: self.lp_supply,
        }
    }

    /// The pool with its balances replaced by `r`.
    pub open spec fn spec_with_reserves(self, r: Reserves) -> Pool {
        Pool { reserve_a: r.reserve_a, reserve_b: r.reserve_b, lp_supply: r.lp_supply, ..self }
    }

    /// The balances of the pool.
    pub fn reserves(&self) -> (r: Reserves)
        ensures
            r == self.spec_reserves(),
            r.reserve_a == self.reserve_a && r.reserve_b == self.reserve_b && r.lp_supply
                == self.lp_supply,
    {
        Reserves {
            reserve_a: self.reserve_a,
            reserve_b: self.reserve_b,
            lp_supply: self.lp_supply,
        }
    }

    /// The pool with its balances replaced by `r`.
    pub fn with_reserves(&self, r: Reserves) -> (pool: Pool)
        ensures
            pool == self.spec_with_reserves(r),
            pool.reserve_a == r.reserve_a && pool.reserve_b == r.reserve_b && pool.lp_supply
                == r.lp_supply,
            pool.token_a_mint == self.token_a_mint && pool.token_b_mint == self.token_b_mint
                && pool.token_a_vault == self.token_a_vault && pool.token_b_vault
                == self.token_b_vault && pool.lp_mint == self.lp_mint,
            pool.fee_numerator == self.fee_numerator && pool.fee_denominator
                == self.fee_denominator && pool.bump == self.bump,
    {
        Pool { reserve_a: r.reserve_a, reserve_b: r.reserve_b, lp_supply: r.lp_supply, ..*self }
    }
}

} // verus!
