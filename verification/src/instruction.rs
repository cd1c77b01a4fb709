//! Instructions of the native program and their byte format: a one-byte tag
//! followed by the fields, integers in little-endian order, booleans as 0 or 1.
use vstd::prelude::*;
use vstd::bytes::{lemma_auto_spec_u64_to_from_le_bytes, spec_u64_from_le_bytes, spec_u64_to_le_bytes};
use crate::state::{bool_byte, push_u64, read_u64};

verus! {

/// Instructions supported by the DEX program
#[derive(Debug, Clone, Copy, PartialEq, Eq, Structural)]
pub enum DexInstruction {
    /// Create and configure a new liquidity pool.
    ///
    /// Accounts (in order):
    /// 0. `[signer, writable]` pool_account      - pre-allocated, size = POOL_SIZE
    /// 1. `[]`                  token_a_mint
    /// 2. `[]`                  token_b_mint
    /// 3. `[writable]`          token_a_vault     - SPL token account, authority = pool_authority PDA
    /// 4. `[writable]`          token_b_vault     - SPL token account, authority = pool_authority PDA
    /// 5. `[writable]`          lp_mint           - mint authority = pool_authority PDA
    /// 6. `[]`                  pool_authority    - PDA: seeds = ["pool_authority", pool_account]
    /// 7. `[]`                  token_program
    InitializePool {
        /// e.g. 3 for a 0.3% fee
        fee_numerator: u64,
        /// e.g. 1000
        fee_denominator: u64,
        /// canonical bump for the pool_authority PDA
        bump: u8,
    },
    /// Deposit tokens into the pool and receive LP tokens.
    ///
    /// Accounts (in order):
    /// 0. `[signer]`   user
    /// 1. `[writable]` pool_account
    /// 2. `[writable]` user_token_a      - source of token A
    /// 3. `[writable]` token_a_vault
    /// 4. `[writable]` user_token_b      - source of token B
    /// 5. `[writable]` token_b_vault
    /// 6. `[writable]` lp_mint
    /// 7. `[writable]` user_lp_account   - destination for LP tokens
    /// 8. `[]`         pool_authority PDA
    /// 9. `[]`         token_program
    AddLiquidity {
        token_a_amount: u64,
        token_b_amount: u64,
        /// slippage guard: revert if LP minted < this
        min_lp_amount: u64,
    },
    /// Burn LP tokens and withdraw the proportional share of both tokens.
    ///
    /// Accounts (in order):
    /// 0. `[signer]`   user
    /// 1. `[writable]` pool_account
    /// 2. `[writable]` user_lp_account   - LP tokens burned from here
    /// 3. `[writable]` lp_mint
    /// 4. `[writable]` token_a_vault
    /// 5. `[writable]` user_token_a      - receives token A
    /// 6. `[writable]` token_b_vault
    /// 7. `[writable]` user_token_b      - receives token B
    /// 8. `[]`         pool_authority PDA
    /// 9. `[]`         token_program
    RemoveLiquidity {
        lp_amount: u64,
        /// slippage guard
        min_token_a: u64,
        /// slippage guard
        min_token_b: u64,
    },
    /// Swap tokens using the constant-product formula (x * y = k).
    ///
    /// Accounts (in order):
    /// 0. `[signer]`   user
    /// 1. `[writable]` pool_account
    /// 2. `[writable]` user_source_token  - tokens going IN
    /// 3. `[writable]` pool_source_vault  - pool vault receiving input
    /// 4. `[writable]` pool_dest_vault    - pool vault sending output
    /// 5. `[writable]` user_dest_token    - tokens going OUT
    /// 6. `[]`         pool_authority PDA
    /// 7. `[]`         token_program
    Swap {
        amount_in: u64,
        /// slippage guard
        min_amount_out: u64,
        /// true: swap A for B; false: swap B for A
        a_to_b: bool,
    },
    /// Read-only query: report the whole pool state (balances, price, k).
    ///
    /// Accounts (in order):
    /// 0. `[]` pool_account
    GetPoolInfo,
}

impl DexInstruction {
    /// The byte format of the instruction.
    pub open spec fn spec_pack(self) -> Seq<u8> {
        match self {
            DexInstruction::InitializePool { fee_numerator, fee_denominator, bump } => seq![0u8]
                + spec_u64_to_le_bytes(fee_numerator) + spec_u64_to_le_bytes(fee_denominator)
                + seq![bump],
            DexInstruction::AddLiquidity { token_a_amount, token_b_amount, min_lp_amount } =>
                seq![1u8] + spec_u64_to_le_bytes(token_a_amount) + spec_u64_to_le_bytes(
                token_b_amount,
            ) + spec_u64_to_le_bytes(min_lp_amount),
            DexInstruction::RemoveLiquidity { lp_amount, min_token_a, min_token_b } => seq![2u8]
                + spec_u64_to_le_bytes(lp_amount) + spec_u64_to_le_bytes(min_token_a)
                + spec_u64_to_le_bytes(min_token_b),
            DexInstruction::Swap { amount_in, min_amount_out, a_to_b } => seq![3u8]
                + spec_u64_to_le_bytes(amount_in) + spec_u64_to_le_bytes(min_amount_out) + seq![
                bool_byte(a_to_b),
            ],
            DexInstruction::GetPoolInfo => seq![4u8],
        }
    }

    /// The instruction that `data` encodes, if it encodes exactly one.
    pub open spec fn spec_unpack(data: Seq<u8>) -> Option<DexInstruction> {
        if data.len() == 0 {
            None
        } else if data[0] == 0 && data.len() == 18 {
            Some(
                DexInstruction::InitializePool {
                    fee_numerator: spec_u64_from_le_bytes(data.subrange(1, 9)),
                    fee_denominator: spec_u64_from_le_bytes(data.subrange(9, 17)),
                    bump: data[17],
                },
            )
        } else if data[0] == 1 && data.len() == 25 {
            Some(
                DexInstruction::AddLiquidity {
                    token_a_amount: spec_u64_from_le_bytes(data.subrange(1, 9)),
                    token_b_amount: spec_u64_from_le_bytes(data.subrange(9, 17)),
                    min_lp_amount: spec_u64_from_le_bytes(data.subrange(17, 25)),
                },
            )
        } else if data[0] == 2 && data.len() == 25 {
            Some(
                DexInstruction::RemoveLiquidity {
                    lp_amount: spec_u64_from_le_bytes(data.subrange(1, 9)),
                    min_token_a: spec_u64_from_le_bytes(data.subrange(9, 17)),
                    min_token_b: spec_u64_from_le_bytes(data.subrange(17, 25)),
                },
            )
        } else if data[0] == 3 && data.len() == 18 && data[17] <= 1 {
            Some(
                DexInstruction::Swap {
                    amount_in: spec_u64_from_le_bytes(data.subrange(1, 9)),
                    min_amount_out: spec_u64_from_le_bytes(data.subrange(9, 17)),
                    a_to_b: data[17] == 1,
                },
            )
        } else if data[0] == 4 && data.len() == 1 {
            Some(DexInstruction::GetPoolInfo)
        } else {
            None
        }
    }

    /// Serialize the instruction.
    pub fn pack(&self) -> (data: Vec<u8>)
        ensures
            data@ == self.spec_pack(),
    {
        let mut data: Vec<u8> = Vec::new();
        match self {
            DexInstruction::InitializePool { fee_numerator, fee_denominator, bump } => {
                data.push(0u8);
                push_u64(&mut data, *fee_numerator);
                push_u64(&mut data, *fee_denominator);
                data.push(*bump);
            },
            DexInstruction::AddLiquidity { token_a_amount, token_b_amount, min_lp_amount } => {
                data.push(1u8);
                push_u64(&mut data, *token_a_amount);
                push_u64(&mut data, *token_b_amount);
                push_u64(&mut data, *min_lp_amount);
            },
            DexInstruction::RemoveLiquidity { lp_amount, min_token_a, min_token_b } => {
                data.push(2u8);
                push_u64(&mut data, *lp_amount);
                push_u64(&mut data, *min_token_a);
                push_u64(&mut data, *min_token_b);
            },
            DexInstruction::Swap { amount_in, min_amount_out, a_to_b } => {
                data.push(3u8);
                push_u64(&mut data, *amount_in);
                push_u64(&mut data, *min_amount_out);
                data.push(
                    if *a_to_b {
                        1u8
                    } else {
                        0u8
                    },
                );
            },
            DexInstruction::GetPoolInfo => {
                data.push(4u8);
            },
        }
        proof {
            assert(data@ =~= self.spec_pack());
        }
        data
    }

    /// Deserialize an instruction; `None` unless `data` encodes exactly one
    /// instruction (known tag, right length, a boolean byte of 0 or 1).
    pub fn unpack(data: &[u8]) -> (instruction: Option<DexInstruction>)
        ensures
            instruction == Self::spec_unpack(data@),
    {
        let len = data.len();
        if len == 0 {
            return None;
        }
        let tag = data[0];
        if tag == 0 && len == 18 {
            Some(
                DexInstruction::InitializePool {
                    fee_numerator: read_u64(data, 1),
                    fee_denominator: read_u64(data, 9),
                    bump: data[17],
                },
            )
        } else if tag == 1 && len == 25 {
            Some(
                DexInstruction::AddLiquidity {
                    token_a_amount: read_u64(data, 1),
                    token_b_amount: read_u64(data, 9),
                    min_lp_amount: read_u64(data, 17),
                },
            )
        } else if tag == 2 && len == 25 {
            Some(
                DexInstruction::RemoveLiquidity {
                    lp_amount: read_u64(data, 1),
                    min_token_a: read_u64(data, 9),
                    min_token_b: read_u64(data, 17),
                },
            )
        } else if tag == 3 && len == 18 && data[17] <= 1 {
            Some(
                DexInstruction::Swap {
                    amount_in: read_u64(data, 1),
                    min_amount_out: read_u64(data, 9),
                    a_to_b: data[17] == 1,
                },
            )
        } else if tag == 4 && len == 1 {
            Some(DexInstruction::GetPoolInfo)
        } else {
            None
        }
    }
}

/// Unpacking what `pack` wrote gives the instruction back, and whatever
/// `unpack` accepts is exactly what `pack` writes for the result.
pub proof fn lemma_instruction_round_trip(instruction: DexInstruction, data: Seq<u8>)
    ensures
        DexInstruction::spec_unpack(instruction.spec_pack()) == Some(instruction),
        DexInstruction::spec_unpack(data) matches Some(i) ==> i.spec_pack() == data,
{
    lemma_auto_spec_u64_to_from_le_bytes();
    let b = instruction.spec_pack();
    match instruction {
        DexInstruction::InitializePool { fee_numerator, fee_denominator, .. } => {
            assert(b.subrange(1, 9) =~= spec_u64_to_le_bytes(fee_numerator));
            assert(b.subrange(9, 17) =~= spec_u64_to_le_bytes(fee_denominator));
        },
        DexInstruction::AddLiquidity { token_a_amount, token_b_amount, min_lp_amount } => {
            assert(b.subrange(1, 9) =~= spec_u64_to_le_bytes(token_a_amount));
            assert(b.subrange(9, 17) =~= spec_u64_to_le_bytes(token_b_amount));
            assert(b.subrange(17, 25) =~= spec_u64_to_le_bytes(min_lp_amount));
        },
        DexInstruction::RemoveLiquidity { lp_amount, min_token_a, min_token_b } => {
            assert(b.subrange(1, 9) =~= spec_u64_to_le_bytes(lp_amount));
            assert(b.subrange(9, 17) =~= spec_u64_to_le_bytes(min_token_a));
            assert(b.subrange(17, 25) =~= spec_u64_to_le_bytes(min_token_b));
        },
        DexInstruction::Swap { amount_in, min_amount_out, .. } => {
            assert(b.subrange(1, 9) =~= spec_u64_to_le_bytes(amount_in));
            assert(b.subrange(9, 17) =~= spec_u64_to_le_bytes(min_amount_out));
        },
        DexInstruction::GetPoolInfo => {},
    }
    if let Some(i) = DexInstruction::spec_unpack(data) {
        assert(i.spec_pack() =~= data);
    }
}

/// The instruction data is the Borsh encoding of the instruction: the
/// variant's index as one byte (0 to 4 in declaration order), then each
/// field in order, integers as 8 little-endian bytes and `bump` as one byte,
/// and a boolean as one byte, 1 for true and 0 for false.
pub proof fn lemma_instruction_layout(instruction: DexInstruction)
    ensures
        match instruction {
            DexInstruction::InitializePool { fee_numerator, fee_denominator, bump } => instruction.spec_pack()
                == seq![0u8] + spec_u64_to_le_bytes(fee_numerator) + spec_u64_to_le_bytes(
                fee_denominator,
            ) + seq![bump],
            DexInstruction::AddLiquidity { token_a_amount, token_b_amount, min_lp_amount } =>
                instruction.spec_pack() == seq![1u8] + spec_u64_to_le_bytes(token_a_amount)
                + spec_u64_to_le_bytes(token_b_amount) + spec_u64_to_le_bytes(min_lp_amount),
            DexInstruction::RemoveLiquidity { lp_amount, min_token_a, min_token_b } =>
                instruction.spec_pack() == seq![2u8] + spec_u64_to_le_bytes(lp_amount)
                + spec_u64_to_le_bytes(min_token_a) + spec_u64_to_le_bytes(min_token_b),
            DexInstruction::Swap { amount_in, min_amount_out, a_to_b } => instruction.spec_pack()
                == seq![3u8] + spec_u64_to_le_bytes(amount_in) + spec_u64_to_le_bytes(
                min_amount_out,
            ) + seq![
                if a_to_b {
                    1u8
                } else {
                    0u8
                },
            ],
            DexInstruction::GetPoolInfo => instruction.spec_pack() == seq![4u8],
        },
{
}

/// Decoding instruction data accepts exactly the Borsh encodings: a known
/// variant index followed by exactly that variant's fields, a boolean byte
/// being 0 (false) or 1 (true); every other input is refused.
pub proof fn lemma_instruction_decoding(data: Seq<u8>)
    ensures
        data.len() == 18 && data[0] == 0 ==> DexInstruction::spec_unpack(data) == Some(
            DexInstruction::InitializePool {
                fee_numerator: spec_u64_from_le_bytes(data.subrange(1, 9)),
                fee_denominator: spec_u64_from_le_bytes(data.subrange(9, 17)),
                bump: data[17],
            },
        ),
        data.len() == 25 && data[0] == 1 ==> DexInstruction::spec_unpack(data) == Some(
            DexInstruction::AddLiquidity {
                token_a_amount: spec_u64_from_le_bytes(data.subrange(1, 9)),
                token_b_amount: spec_u64_from_le_bytes(data.subrange(9, 17)),
                min_lp_amount: spec_u64_from_le_bytes(data.subrange(17, 25)),
            },
        ),
        data.len() == 25 && data[0] == 2 ==> DexInstruction::spec_unpack(data) == Some(
            DexInstruction::RemoveLiquidity {
                lp_amount: spec_u64_from_le_bytes(data.subrange(1, 9)),
                min_token_a: spec_u64_from_le_bytes(data.subrange(9, 17)),
                min_token_b: spec_u64_from_le_bytes(data.subrange(17, 25)),
            },
        ),
        data.len() == 18 && data[0] == 3 && data[17] == 0 ==> DexInstruction::spec_unpack(data)
            == Some(
            DexInstruction::Swap {
                amount_in: spec_u64_from_le_bytes(data.subrange(1, 9)),
                min_amount_out: spec_u64_from_le_bytes(data.subrange(9, 17)),
                a_to_b: false,
            },
        ),
        data.len() == 18 && data[0] == 3 && data[17] == 1 ==> DexInstruction::spec_unpack(data)
            == Some(
            DexInstruction::Swap {
                amount_in: spec_u64_from_le_bytes(data.subrange(1, 9)),
                min_amount_out: spec_u64_from_le_bytes(data.subrange(9, 17)),
                a_to_b: true,
            },
        ),
        data.len() == 1 && data[0] == 4 ==> DexInstruction::spec_unpack(data) == Some(
            DexInstruction::GetPoolInfo,
        ),
        !(data.len() == 18 && data[0] == 0) && !(data.len() == 25 && data[0] == 1) && !(data.len()
            == 25 && data[0] == 2) && !(data.len() == 18 && data[0] == 3 && (data[17] == 0
            || data[17] == 1)) && !(data.len() == 1 && data[0] == 4)
            ==> DexInstruction::spec_unpack(data) is None,
{
}

} // verus!
