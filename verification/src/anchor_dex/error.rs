//! Errors of the Anchor program.
use vstd::prelude::*;

verus! {

/// The Anchor program's errors; Anchor numbers them from 6000 in order.
#[derive(Debug, Clone, Copy, PartialEq, Eq, Structural)]
pub enum DexError {
    InvalidFee,
    ZeroAmount,
    InsufficientLiquidity,
    SlippageExceeded,
    Overflow,
    InvalidVaultMint,
}

impl DexError {
    /// The error's number: Anchor's offset 6000 plus its position.
    pub open spec fn spec_code(self) -> u32 {
        match self {
            DexError::InvalidFee => 6000,
            DexError::ZeroAmount => 6001,
            DexError::InsufficientLiquidity => 6002,
            DexError::SlippageExceeded => 6003,
            DexError::Overflow => 6004,
            DexError::InvalidVaultMint => 6005,
        }
    }

    /// The error's number: Anchor's offset 6000 plus its position.
    pub fn code(&self) -> (code: u32)
        ensures
            code == self.spec_code(),
            *self == DexError::InvalidFee ==> code == 6000,
            *self == DexError::ZeroAmount ==> code == 6001,
            *self == DexError::InsufficientLiquidity ==> code == 6002,
            *self == DexError::SlippageExceeded ==> code == 6003,
            *self == DexError::Overflow ==> code == 6004,
            *self == DexError::InvalidVaultMint ==> code == 6005,
    {
        match self {
            DexError::InvalidFee => 6000,
            DexError::ZeroAmount => 6001,
            DexError::InsufficientLiquidity => 6002,
            DexError::SlippageExceeded => 6003,
            DexError::Overflow => 6004,
            DexError::InvalidVaultMint => 6005,
        }
    }

    /// The error's message.
    pub fn message(&self) -> (msg: &'static str)
        ensures
            msg@ == (match self {
                DexError::InvalidFee => "Fee denominator must be > 0 and fee numerator < denominator"@,
                DexError::ZeroAmount => "Amount must be greater than zero"@,
                DexError::InsufficientLiquidity => "Insufficient liquidity in the pool"@,
                DexError::SlippageExceeded => "Slippage tolerance exceeded"@,
                DexError::Overflow => "Arithmetic overflow"@,
                DexError::InvalidVaultMint => "Invalid account: vault mint does not match pool mint"@,
            }),
    {
        match self {
            DexError::InvalidFee => "Fee denominator must be > 0 and fee numerator < denominator",
            DexError::ZeroAmount => "Amount must be greater than zero",
            DexError::InsufficientLiquidity => "Insufficient liquidity in the pool",
            DexError::SlippageExceeded => "Slippage tolerance exceeded",
            DexError::Overflow => "Arithmetic overflow",
            DexError::InvalidVaultMint => "Invalid account: vault mint does not match pool mint",
        }
    }
}

} // verus!
