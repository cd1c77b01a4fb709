//! Errors of the native program.
use vstd::prelude::*;

verus! {

/// DEX custom errors, reported to the runtime as `Custom(code)`.
#[derive(Debug, Clone, Copy, PartialEq, Eq, Structural)]
pub enum DexError {
    /// Pool is already initialized
    AlreadyInitialized,
    /// Pool is not initialized
    NotInitialized,
    /// Pool has insufficient liquidity
    InsufficientLiquidity,
    /// Output amount below minimum (slippage exceeded)
    SlippageExceeded,
    /// Arithmetic overflow
    Overflow,
    /// Fee parameters are invalid
    InvalidFee,
    /// Input amount is zero
    ZeroAmount,
    /// Pool account addresses do not match recorded addresses
    InvalidPoolAccounts,
}

impl DexError {
    /// The error's number in the program's custom error space.
    pub open spec fn spec_code(self) -> u32 {
        match self {
            DexError::AlreadyInitialized => 0,
            DexError::NotInitialized => 1,
            DexError::InsufficientLiquidity => 2,
            DexError::SlippageExceeded => 3,
            DexError::Overflow => 4,
            DexError::InvalidFee => 5,
            DexError::ZeroAmount => 6,
            DexError::InvalidPoolAccounts => 7,
        }
    }

    /// The error's number in the program's custom error space: the value the
    /// runtime reports as `Custom(code)`.
    pub fn code(&self) -> (code: u32)
        ensures
            code == self.spec_code(),
            *self == DexError::AlreadyInitialized ==> code == 0,
            *self == DexError::NotInitialized ==> code == 1,
            *self == DexError::InsufficientLiquidity ==> code == 2,
            *self == DexError::SlippageExceeded ==> code == 3,
            *self == DexError::Overflow ==> code == 4,
            *self == DexError::InvalidFee ==> code == 5,
            *self == DexError::ZeroAmount ==> code == 6,
            *self == DexError::InvalidPoolAccounts ==> code == 7,
    {
        match self {
            DexError::AlreadyInitialized => 0,
            DexError::NotInitialized => 1,
            DexError::InsufficientLiquidity => 2,
            DexError::SlippageExceeded => 3,
            DexError::Overflow => 4,
            DexError::InvalidFee => 5,
            DexError::ZeroAmount => 6,
            DexError::InvalidPoolAccounts => 7,
        }
    }
}

} // verus!
