//! The pool account of the native program and its byte layout.
use vstd::prelude::*;
use vstd::bytes::{
    lemma_auto_spec_u64_to_from_le_bytes, spec_u64_from_le_bytes, spec_u64_to_le_bytes,
    u64_from_le_bytes, u64_to_le_bytes,
};
use vstd::slice::slice_subrange;
use crate::amm::Reserves;

verus! {

/// Byte size of a serialized Pool account:
/// 1 (bool) + 5 * 32 (public keys) + 5 * 8 (u64) + 1 (u8 bump) = 202.
pub const POOL_SIZE: usize = 202;

/// Liquidity pool state stored in a dedicated account.
///
/// Seeds for the pool_authority PDA:
///   `["pool_authority", pool_account_key]`
#[derive(Debug, Clone, Copy, PartialEq, Eq)]
pub struct Pool {
    /// Whether this pool has been initialized
    pub is_initialized: bool,
    /// Mint of token A (e.g., USDC)
    pub token_a_mint: [u8; 32],
    /// Mint of token B (e.g., SOL-wrapped)
    pub token_b_mint: [u8; 32],
    /// Pool's token A vault (owned by pool_authority PDA)
    pub token_a_vault: [u8; 32],
    /// Pool's token B vault (owned by pool_authority PDA)
    pub token_b_vault: [u8; 32],
    /// LP token mint (mint authority = pool_authority PDA)
    pub lp_mint: [u8; 32],
    /// Current token A reserve (cached, must equal vault balance)
    pub reserve_a: u64,
    /// Current token B reserve (cached, must equal vault balance)
    pub reserve_b: u64,
    /// Total LP token supply outstanding
    pub lp_supply: u64,
    /// Fee numerator   (e.g., 3  -> 0.3% fee)
    pub fee_numerator: u64,
    /// Fee denominator (e.g., 1000)
    pub fee_denominator: u64,
    /// Canonical bump seed for pool_authority PDA
    pub bump: u8,
}

/// The byte of a boolean: 1 for true, 0 for false.
pub open spec fn bool_byte(b: bool) -> u8 {
    if b {
        1
    } else {
        0
    }
}

/// Bytes that hold a pool: exactly `POOL_SIZE` of them, with a flag byte of 0 or 1.
pub open spec fn is_pool_bytes(bytes: Seq<u8>) -> bool {
    bytes.len() == POOL_SIZE && bytes[0] <= 1
}

impl Pool {
    /// The pool a well-behaved program keeps: initialized, with a fee below
    /// 100% over a positive denominator, and holding tokens exactly when LP
    /// tokens are outstanding.
    pub open spec fn is_valid(self) -> bool {
        &&& self.is_initialized
        &&& 0 < self.fee_denominator
        &&& self.fee_numerator < self.fee_denominator
        &&& self.spec_reserves().is_consistent()
    }

    /// The pool that `bytes` hold, if they hold exactly one.
    pub open spec fn spec_unpack(bytes: Seq<u8>) -> Option<Pool> {
        if is_pool_bytes(bytes) && exists|p: Pool| p.spec_pack() == bytes {
            Some(choose|p: Pool| p.spec_pack() == bytes)
        } else {
            None
        }
    }

    /// The layout of a pool account: the flag byte, the five keys, the five
    /// 64-bit fields in little-endian order, and the bump byte.
    pub open spec fn spec_pack(self) -> Seq<u8> {
        seq![bool_byte(self.is_initialized)] + self.token_a_mint@ + self.token_b_mint@
            + self.token_a_vault@ + self.token_b_vault@ + self.lp_mint@ + spec_u64_to_le_bytes(
            self.reserve_a,
        ) + spec_u64_to_le_bytes(self.reserve_b) + spec_u64_to_le_bytes(self.lp_supply)
            + spec_u64_to_le_bytes(self.fee_numerator) + spec_u64_to_le_bytes(
            self.fee_denominator,
        ) + seq![self.bump]
    }

    /// The balances of the pool.
    pub open spec fn spec_reserves(self) -> Reserves {
        Reserves {
            reserve_a: self.reserve_a,
            reserve_b: self.reserve_b,
            lp_supply: self.lp_supply,
        }
    }

    /// The pool with its balances replaced by `r`.
    pub open spec fn spec_with_reserves(self, r: Reserves) -> Pool {
        Pool { reserve_a: r.reserve_a, reserve_b: r.reserve_b, lp_supply: r.lp_supply, ..self }
    }

    /// The balances of the pool.
    pub fn reserves(&self) -> (r: Reserves)
        ensures
            r == self.spec_reserves(),
            r.reserve_a == self.reserve_a && r.reserve_b == self.reserve_b && r.lp_supply
                == self.lp_supply,
    {
        Reserves {
            reserve_a: self.reserve_a,
            reserve_b: self.reserve_b,
            lp_supply: self.lp_supply,
        }
    }

    /// The pool with its balances replaced by `r`.
    pub fn with_reserves(&self, r: Reserves) -> (pool: Pool)
        ensures
            pool == self.spec_with_reserves(r),
            pool.reserve_a == r.reserve_a && pool.reserve_b == r.reserve_b && pool.lp_supply
                == r.lp_supply,
            pool.token_a_mint == self.token_a_mint && pool.token_b_mint == self.token_b_mint
                && pool.token_a_vault == self.token_a_vault && pool.token_b_vault
                == self.token_b_vault && pool.lp_mint == self.lp_mint,
            pool.fee_numerator == self.fee_numerator && pool.fee_denominator
                == self.fee_denominator && pool.bump == self.bump,
            pool.is_initialized == self.is_initialized,
    {
        Pool { reserve_a: r.reserve_a, reserve_b: r.reserve_b, lp_supply: r.lp_supply, ..*self }
    }

    /// Serialize the pool into its account layout.
    pub fn pack(&self) -> (bytes: Vec<u8>)
        ensures
            bytes@ == self.spec_pack(),
    {
        let mut bytes: Vec<u8> = Vec::with_capacity(POOL_SIZE);
        bytes.push(if self.is_initialized {
            1u8
        } else {
            0u8
        });
        push_key(&mut bytes, &self.token_a_mint);
        push_key(&mut bytes, &self.token_b_mint);
        push_key(&mut bytes, &self.token_a_vault);
        push_key(&mut bytes, &self.token_b_vault);
        push_key(&mut bytes, &self.lp_mint);
        push_u64(&mut bytes, self.reserve_a);
        push_u64(&mut bytes, self.reserve_b);
        push_u64(&mut bytes, self.lp_supply);
        push_u64(&mut bytes, self.fee_numerator);
        push_u64(&mut bytes, self.fee_denominator);
        bytes.push(self.bump);
        bytes
    }

    /// Deserialize a pool from its account layout; `None` when the bytes are
    /// not exactly one pool (wrong length, or a flag byte other than 0 or 1).
    pub fn unpack(bytes: &[u8]) -> (pool: Option<Pool>)
        ensures
            pool == Pool::spec_unpack(bytes@),
            pool is Some <==> is_pool_bytes(bytes@),
            pool matches Some(p) ==> p.spec_pack() == bytes@,
    {
        if bytes.len() != POOL_SIZE {
            return None;
        }
        let flag = bytes[0];
        if flag > 1 {
            return None;
        }
        let pool = Pool {
            is_initialized: flag == 1,
            token_a_mint: read_key(bytes, 1),
            token_b_mint: read_key(bytes, 33),
            token_a_vault: read_key(bytes, 65),
            token_b_vault: read_key(bytes, 97),
            lp_mint: read_key(bytes, 129),
            reserve_a: read_u64(bytes, 161),
            reserve_b: read_u64(bytes, 169),
            lp_supply: read_u64(bytes, 177),
            fee_numerator: read_u64(bytes, 185),
            fee_denominator: read_u64(bytes, 193),
            bump: bytes[201],
        };
        proof {
            lemma_auto_spec_u64_to_from_le_bytes();
            let b = bytes@;
            assert(pool.spec_pack() =~= b);
            let q = choose|q: Pool| q.spec_pack() == b;
            lemma_pack_round_trip(pool, q);
        }
        Some(pool)
    }
}

/// The pool account is the Borsh encoding of the pool: 202 bytes holding,
/// in field order, the flag as one byte (1 initialized, 0 not), the five
/// 32-byte keys, the five 64-bit fields in little-endian order, and the bump
/// byte. Bytes of another length, or with a flag byte other than 0 or 1,
/// hold no pool.
pub proof fn lemma_pool_layout(p: Pool, bytes: Seq<u8>)
    ensures
        p.spec_pack().len() == 202,
        p.spec_pack()[0] == (if p.is_initialized {
            1u8
        } else {
            0u8
        }),
        p.spec_pack().subrange(1, 33) == p.token_a_mint@,
        p.spec_pack().subrange(33, 65) == p.token_b_mint@,
        p.spec_pack().subrange(65, 97) == p.token_a_vault@,
        p.spec_pack().subrange(97, 129) == p.token_b_vault@,
        p.spec_pack().subrange(129, 161) == p.lp_mint@,
        p.spec_pack().subrange(161, 169) == spec_u64_to_le_bytes(p.reserve_a),
        p.spec_pack().subrange(169, 177) == spec_u64_to_le_bytes(p.reserve_b),
        p.spec_pack().subrange(177, 185) == spec_u64_to_le_bytes(p.lp_supply),
        p.spec_pack().subrange(185, 193) == spec_u64_to_le_bytes(p.fee_numerator),
        p.spec_pack().subrange(193, 201) == spec_u64_to_le_bytes(p.fee_denominator),
        p.spec_pack()[201] == p.bump,
        bytes.len() != 202 || bytes[0] > 1 ==> Pool::spec_unpack(bytes) is None,
        Pool::spec_unpack(p.spec_pack()) == Some(p),
{
    lemma_auto_spec_u64_to_from_le_bytes();
    lemma_unpack_pack(p);
    let b = p.spec_pack();
    assert(b.subrange(1, 33) =~= p.token_a_mint@);
    assert(b.subrange(33, 65) =~= p.token_b_mint@);
    assert(b.subrange(65, 97) =~= p.token_a_vault@);
    assert(b.subrange(97, 129) =~= p.token_b_vault@);
    assert(b.subrange(129, 161) =~= p.lp_mint@);
    assert(b.subrange(161, 169) =~= spec_u64_to_le_bytes(p.reserve_a));
    assert(b.subrange(169, 177) =~= spec_u64_to_le_bytes(p.reserve_b));
    assert(b.subrange(177, 185) =~= spec_u64_to_le_bytes(p.lp_supply));
    assert(b.subrange(185, 193) =~= spec_u64_to_le_bytes(p.fee_numerator));
    assert(b.subrange(193, 201) =~= spec_u64_to_le_bytes(p.fee_denominator));
}

/// Unpacking what `pack` wrote gives the pool back.
pub proof fn lemma_unpack_pack(p: Pool)
    ensures
        Pool::spec_unpack(p.spec_pack()) == Some(p),
{
    lemma_pack_round_trip(p, p);
    let q = choose|q: Pool| q.spec_pack() == p.spec_pack();
    lemma_pack_round_trip(p, q);
}

/// Every pool has a layout that `unpack` accepts, and two pools with the same
/// layout are the same pool.
pub proof fn lemma_pack_round_trip(p: Pool, q: Pool)
    ensures
        is_pool_bytes(p.spec_pack()),
        q.spec_pack() == p.spec_pack() ==> q == p,
{
    lemma_auto_spec_u64_to_from_le_bytes();
    let bp = p.spec_pack();
    assert(bp.len() == POOL_SIZE);
    if q.spec_pack() == bp {
        let bq = q.spec_pack();
        assert(q.token_a_mint@ =~= bq.subrange(1, 33));
        assert(p.token_a_mint@ =~= bp.subrange(1, 33));
        assert(q.token_b_mint@ =~= bq.subrange(33, 65));
        assert(p.token_b_mint@ =~= bp.subrange(33, 65));
        assert(q.token_a_vault@ =~= bq.subrange(65, 97));
        assert(p.token_a_vault@ =~= bp.subrange(65, 97));
        assert(q.token_b_vault@ =~= bq.subrange(97, 129));
        assert(p.token_b_vault@ =~= bp.subrange(97, 129));
        assert(q.lp_mint@ =~= bq.subrange(129, 161));
        assert(p.lp_mint@ =~= bp.subrange(129, 161));
        assert(q.token_a_mint =~= p.token_a_mint);
        assert(q.token_b_mint =~= p.token_b_mint);
        assert(q.token_a_vault =~= p.token_a_vault);
        assert(q.token_b_vault =~= p.token_b_vault);
        assert(q.lp_mint =~= p.lp_mint);
        assert(spec_u64_to_le_bytes(q.reserve_a) =~= bq.subrange(161, 169));
        assert(spec_u64_to_le_bytes(p.reserve_a) =~= bp.subrange(161, 169));
        assert(spec_u64_to_le_bytes(q.reserve_b) =~= bq.subrange(169, 177));
        assert(spec_u64_to_le_bytes(p.reserve_b) =~= bp.subrange(169, 177));
        assert(spec_u64_to_le_bytes(q.lp_supply) =~= bq.subrange(177, 185));
        assert(spec_u64_to_le_bytes(p.lp_supply) =~= bp.subrange(177, 185));
        assert(spec_u64_to_le_bytes(q.fee_numerator) =~= bq.subrange(185, 193));
        assert(spec_u64_to_le_bytes(p.fee_numerator) =~= bp.subrange(185, 193));
        assert(spec_u64_to_le_bytes(q.fee_denominator) =~= bq.subrange(193, 201));
        assert(spec_u64_to_le_bytes(p.fee_denominator) =~= bp.subrange(193, 201));
        assert(bq[0] == bool_byte(q.is_initialized));
        assert(bp[0] == bool_byte(p.is_initialized));
        assert(q.is_initialized == p.is_initialized);
        assert(q.reserve_a == p.reserve_a);
        assert(q.reserve_b == p.reserve_b);
        assert(q.lp_supply == p.lp_supply);
        assert(q.fee_numerator == p.fee_numerator);
        assert(q.fee_denominator == p.fee_denominator);
        assert(bq[201] == q.bump);
        assert(bp[201] == p.bump);
        assert(q.token_a_mint == p.token_a_mint);
        assert(q.lp_mint == p.lp_mint);
    }
}

/// Append a 32-byte key.
pub fn push_key(bytes: &mut Vec<u8>, key: &[u8; 32])
    ensures
        final(bytes)@ == old(bytes)@ + key@,
{
    let ghost start = bytes@;
    for i in 0..32
        invariant
            bytes@ == start + key@.subrange(0, i as int),
    {
        bytes.push(key[i]);
        assert(key@.subrange(0, (i + 1) as int) =~= key@.subrange(0, i as int).push(key@[i as int]));
    }
    assert(key@.subrange(0, 32) =~= key@);
}

/// Append a `u64` in little-endian order.
pub fn push_u64(bytes: &mut Vec<u8>, value: u64)
    ensures
        final(bytes)@ == old(bytes)@ + spec_u64_to_le_bytes(value),
{
    let mut le = u64_to_le_bytes(value);
    bytes.append(&mut le);
}

/// The 32-byte key at `offset`.
pub fn read_key(bytes: &[u8], offset: usize) -> (key: [u8; 32])
    requires
        offset + 32 <= bytes.len(),
    ensures
        key@ == bytes@.subrange(offset as int, offset + 32),
{
    let mut key = [0u8; 32];
    for i in 0..32
        invariant
            offset + 32 <= bytes.len(),
            forall|j: int| 0 <= j < i ==> key@[j] == bytes@[offset + j],
    {
        key[i] = bytes[offset + i];
    }
    assert(key@ =~= bytes@.subrange(offset as int, offset + 32));
    key
}

/// The little-endian `u64` at `offset`.
pub fn read_u64(bytes: &[u8], offset: usize) -> (value: u64)
    requires
        offset + 8 <= bytes.len(),
    ensures
        value == spec_u64_from_le_bytes(bytes@.subrange(offset as int, offset + 8)),
{
    u64_from_le_bytes(slice_subrange(bytes, offset, offset + 8))
}

} // verus!
