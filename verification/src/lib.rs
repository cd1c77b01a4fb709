//! A constant-product automated market maker (x * y = k) for Solana.
//!
//! The verified part of the program: the AMM arithmetic, the rules every
//! instruction follows, and the byte formats of the pool account and of the
//! instruction data. Two programs share it: the native program
//! (`processor`, `state`, `instruction`, `error`) and the Anchor program
//! (`anchor_dex`).

pub mod amm;
pub mod anchor_dex;
pub mod error;
pub mod instruction;
pub mod math;
pub mod pda;
pub mod processor;
pub mod state;

pub use instruction::DexInstruction;
