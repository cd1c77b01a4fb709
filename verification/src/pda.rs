//! Program derived addresses, computed by the Solana SDK.
use vstd::prelude::*;
use solana_program::pubkey::Pubkey;

verus! {

/// The program derived address and bump seed that the Solana SDK finds for
/// `seeds` under `program_id`: trying bump seeds from 255 down to 1, the
/// first whose derived address is off the ed25519 curve, or none when none
/// of those does (or the seeds break the SDK's limits). Its value is a SHA-256
/// hash search that this crate does not restate.
pub uninterp spec fn spec_find_program_address(seeds: Seq<Seq<u8>>, program_id: Seq<u8>) -> Option<
    (Seq<u8>, u8),
>;

/// Calls `solana_program::pubkey::Pubkey::try_find_program_address`.
///
/// Trusted: its result is the named value `spec_find_program_address` of the
/// seeds and the program id, a pure function of its arguments. Nothing more
/// is claimed of which address or bump seed that is.
#[verifier::external_body]
pub(crate) fn try_find_program_address(seeds: &Vec<Vec<u8>>, program_id: &[u8; 32]) -> (found:
    Option<([u8; 32], u8)>)
    ensures
        found matches Some((address, bump)) ==> spec_find_program_address(
            seeds.deep_view(),
            program_id@,
        ) == Some((address@, bump)),
        found is None ==> spec_find_program_address(seeds.deep_view(), program_id@) is None,
{
    let mut seed_slices: Vec<&[u8]> = Vec::with_capacity(seeds.len());
    for seed in seeds.iter() {
        seed_slices.push(seed.as_slice());
    }
    match Pubkey::try_find_program_address(&seed_slices, &Pubkey::new_from_array(*program_id)) {
        Some((address, bump)) => Some((address.to_bytes(), bump)),
        None => None,
    }
}

} // verus!
