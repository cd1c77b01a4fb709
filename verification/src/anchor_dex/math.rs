//! The Anchor program's AMM arithmetic: the same constant-product math as the
//! native program.
pub use crate::math::{
    calculate_lp_tokens, calculate_removal_amounts, integer_sqrt, swap_output,
};
